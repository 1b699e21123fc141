use vstd::prelude::*;
use crate::errors::LotteryError;
use crate::state::treasury::Treasury;

pub use crate::state::treasury::TreasuryWithdrawal;

verus! {

/// The balances of two accounts after `amount` has gone from the first to
/// the second. A source that holds less, or a destination that would
/// overflow, is an arithmetic fault.
pub fn transfer_lamports(source: u64, destination: u64, amount: u64) -> (result: Result<
    (u64, u64),
    LotteryError,
>)
    ensures
        match result {
            Ok((debited, credited)) => amount <= source && destination + amount <= u64::MAX
                && debited == source - amount && credited == destination + amount,
            Err(e) => (amount > source || destination + amount > u64::MAX) && e
                == LotteryError::ArithmeticError,
        },
{
    let debited = match source.checked_sub(amount) {
        Some(d) => d,
        None => { return Err(LotteryError::ArithmeticError); },
    };
    let credited = match destination.checked_add(amount) {
        Some(c) => c,
        None => { return Err(LotteryError::ArithmeticError); },
    };
    Ok((debited, credited))
}

/// Withdraws `amount` from the treasury at time `now`. `authority` asks for
/// the withdrawal and `additional_signer` signs with it; the co-signer must be
/// the treasury's authority. The record names the one who asked. A
/// withdrawal that is refused changes nothing.
pub fn handler(
    treasury: &mut Treasury,
    amount: u64,
    authority: [u8; 32],
    additional_signer: &[u8; 32],
    now: i64,
) -> (result: Result<TreasuryWithdrawal, LotteryError>)
    ensures
        match old(treasury).after_withdraw(amount, additional_signer@, now) {
            Ok(ledger) => *final(treasury) == ledger && result == Ok::<
                TreasuryWithdrawal,
                LotteryError,
            >(TreasuryWithdrawal { amount, authority, timestamp: now }),
            Err(e) => result == Err::<TreasuryWithdrawal, LotteryError>(e) && *final(treasury)
                == *old(treasury),
        },
{
    match treasury.withdraw(amount, additional_signer, now) {
        Ok(record) => Ok(
            TreasuryWithdrawal { amount: record.amount, authority, timestamp: record.timestamp },
        ),
        Err(e) => Err(e),
    }
}

} // verus!
