//! Settlement core of a numbers-draw lottery: the round state machine, the
//! prize and fee arithmetic, the winning-number derivation and the treasury
//! ledger, each with a machine-checked contract.

pub mod errors;
pub mod state;
pub mod utils;
pub mod instructions;
