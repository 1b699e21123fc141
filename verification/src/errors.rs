use vstd::prelude::*;

verus! {

/// Every way an operation of the lottery can be refused.
///
/// A refused operation leaves the record it was applied to untouched.
#[derive(Clone, Copy, Debug, PartialEq, Eq, Structural)]
pub enum LotteryError {
    // State errors
    InvalidTimeRange,
    LotteryNotActive,
    DrawInProgress,
    InvalidLotteryState,
    InvalidLotteryType,
    // Prize errors
    InvalidPrizeClaim,
    PrizeAlreadyClaimed,
    NotWinner,
    InvalidPrizeDistribution,
    ClaimWindowExpired,
    // Treasury errors
    InvalidWithdrawal,
    TreasuryError,
    TimelockActive,
    InsufficientTreasuryBalance,
    // Token errors
    InvalidTokenAccount,
    InvalidTokenTransfer,
    InsufficientFunds,
    // Validation errors
    ExceededTicketLimit,
    MinPoolNotReached,
    InvalidTicketPrice,
    Unauthorized,
    UnauthorizedSigner,
    StalePrice,
    InvalidPythFeed,
    ArithmeticError,
}

} // verus!
