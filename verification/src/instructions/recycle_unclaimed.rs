use vstd::prelude::*;
use crate::errors::LotteryError;
use crate::state::lottery::{
    Lottery, LotteryState, LotteryStateData, LotteryTiming, LotteryType,
};
use crate::state::treasury::Treasury;
use crate::utils;

verus! {

/// The record of a round that nobody claimed and that was reset.
#[derive(Clone, Copy, Debug, PartialEq, Eq)]
pub struct LotteryRecycled {
    pub lottery_id: u64,
    pub unclaimed_amount: u64,
    pub new_end_time: i64,
    pub timestamp: i64,
    pub lottery_type: LotteryType,
}

/// What the treasury is owed by a round that nobody claimed in time: the
/// whole pool, or the reason why the round is not recycled.
///
/// The round must be completed, its prize unclaimed and its claim window
/// passed; the end of the new sale window must fit in the time type; and
/// the treasury's balance must have room for the pool.
pub open spec fn recycling(round: Lottery, ledger: Treasury, now: i64) -> Result<
    u64,
    LotteryError,
> {
    if round.state != LotteryState::Completed {
        Err(LotteryError::InvalidLotteryState)
    } else if round.prize_claimed {
        Err(LotteryError::PrizeAlreadyClaimed)
    } else if !utils::claim_window_expired(round.timing.last_draw_timestamp, now) {
        Err(LotteryError::ClaimWindowExpired)
    } else if now + round.lottery_type.duration() > i64::MAX || ledger.balance
        + round.state_data.current_pool_amount > u64::MAX {
        Err(LotteryError::ArithmeticError)
    } else {
        Ok(round.state_data.current_pool_amount)
    }
}

/// The round after it was recycled at time `now`: created anew, with nothing
/// sold and nobody paid, and a sale window that starts at `now`. The winning
/// numbers and the time of the last draw stay on record.
pub open spec fn after_recycle(round: Lottery, now: i64) -> Lottery {
    Lottery {
        state: LotteryState::Created,
        winner: None,
        winner_ticket: None,
        prize_claimed: false,
        state_data: LotteryStateData {
            total_tickets: 0,
            current_pool_amount: 0,
            prize_amount: 0,
            treasury_fee: 0,
        },
        timing: LotteryTiming {
            start_time: now,
            end_time: (now + round.lottery_type.duration()) as i64,
            ..round.timing
        },
        ..round
    }
}

/// The pool of an unclaimed round: what has to be moved from the round's
/// custody to the treasury's before the round is reset. Nothing is changed.
pub fn unclaimed_amount(lottery: &Lottery, treasury: &Treasury, now: i64) -> (result: Result<
    u64,
    LotteryError,
>)
    ensures
        result == recycling(*lottery, *treasury, now),
{
    if !(lottery.state == LotteryState::Completed) {
        return Err(LotteryError::InvalidLotteryState);
    }
    if lottery.prize_claimed {
        return Err(LotteryError::PrizeAlreadyClaimed);
    }
    if !utils::is_claim_window_expired(lottery.timing.last_draw_timestamp, now) {
        return Err(LotteryError::ClaimWindowExpired);
    }
    if now.checked_add(lottery.get_duration()).is_none() {
        return Err(LotteryError::ArithmeticError);
    }
    if treasury.balance.checked_add(lottery.state_data.current_pool_amount).is_none() {
        return Err(LotteryError::ArithmeticError);
    }
    Ok(lottery.state_data.current_pool_amount)
}

/// Recycles an unclaimed round at time `now`: its whole pool is credited to
/// the treasury and the round is reset for a new sale. A recycling that is
/// refused changes neither the round nor the treasury.
pub fn handler(lottery: &mut Lottery, treasury: &mut Treasury, now: i64) -> (result: Result<
    LotteryRecycled,
    LotteryError,
>)
    ensures
        match recycling(*old(lottery), *old(treasury), now) {
            Ok(amount) => {
                &&& *final(lottery) == after_recycle(*old(lottery), now)
                &&& *final(treasury) == old(treasury).credited(amount)
                &&& result == Ok::<LotteryRecycled, LotteryError>(
                    LotteryRecycled {
                        lottery_id: old(lottery).id,
                        unclaimed_amount: amount,
                        new_end_time: (now + old(lottery).lottery_type.duration()) as i64,
                        timestamp: now,
                        lottery_type: old(lottery).lottery_type,
                    },
                )
            },
            Err(e) => {
                &&& result == Err::<LotteryRecycled, LotteryError>(e)
                &&& *final(lottery) == *old(lottery)
                &&& *final(treasury) == *old(treasury)
            },
        },
        old(lottery).wf() ==> final(lottery).wf(),
{
    let unclaimed_amount = match unclaimed_amount(lottery, treasury, now) {
        Ok(amount) => amount,
        Err(e) => { return Err(e); },
    };
    let end_time = match now.checked_add(lottery.get_duration()) {
        Some(end) => end,
        None => { return Err(LotteryError::ArithmeticError); },
    };
    match treasury.credit(unclaimed_amount) {
        Ok(()) => {},
        Err(e) => { return Err(e); },
    }
    lottery.state = LotteryState::Created;
    lottery.state_data.total_tickets = 0;
    lottery.winner = None;
    lottery.winner_ticket = None;
    lottery.prize_claimed = false;
    lottery.state_data.prize_amount = 0;
    lottery.state_data.treasury_fee = 0;
    lottery.state_data.current_pool_amount = 0;
    lottery.timing.start_time = now;
    lottery.timing.end_time = end_time;
    Ok(
        LotteryRecycled {
            lottery_id: lottery.id,
            unclaimed_amount,
            new_end_time: lottery.timing.end_time,
            timestamp: now,
            lottery_type: lottery.lottery_type,
        },
    )
}

} // verus!
