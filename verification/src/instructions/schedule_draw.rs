use vstd::prelude::*;
use crate::errors::LotteryError;
use crate::state::lottery::{Lottery, LotteryState, LotteryTiming};
use crate::utils;

verus! {

/// The record of a round that was handed over to the draw.
#[derive(Clone, Copy, Debug, PartialEq, Eq)]
pub struct DrawScheduled {
    pub lottery_id: u64,
    pub total_tickets: u64,
    pub timestamp: i64,
    pub min_pool_reached: bool,
}

/// Why a round cannot be handed over to the draw at time `now`, if it cannot.
///
/// The round must be open, its sale window must have ended, it must have sold
/// a ticket, and its pool must have reached the floor of its category.
pub open spec fn schedule_refusal(round: Lottery, now: i64) -> Option<LotteryError> {
    if round.state != LotteryState::Open {
        Some(LotteryError::InvalidLotteryState)
    } else if now < round.timing.end_time {
        Some(LotteryError::InvalidTimeRange)
    } else if round.state_data.total_tickets == 0 {
        Some(LotteryError::MinPoolNotReached)
    } else if round.state_data.current_pool_amount < round.lottery_type.min_pool() {
        Some(LotteryError::MinPoolNotReached)
    } else {
        None
    }
}

/// The round after it was handed over to the draw at time `now`.
pub open spec fn after_schedule(round: Lottery, now: i64) -> Lottery {
    Lottery {
        state: LotteryState::Drawing,
        timing: LotteryTiming { last_draw_timestamp: now, ..round.timing },
        ..round
    }
}

/// Closes the sale of a round and hands it over to the draw. From here on the
/// pool is frozen. A round that is refused is left as it is.
pub fn handler(lottery: &mut Lottery, now: i64) -> (result: Result<DrawScheduled, LotteryError>)
    ensures
        match schedule_refusal(*old(lottery), now) {
            None => *final(lottery) == after_schedule(*old(lottery), now) && result == Ok::<
                DrawScheduled,
                LotteryError,
            >(
                DrawScheduled {
                    lottery_id: old(lottery).id,
                    total_tickets: old(lottery).state_data.total_tickets,
                    timestamp: now,
                    min_pool_reached: true,
                },
            ),
            Some(e) => result == Err::<DrawScheduled, LotteryError>(e) && *final(lottery) == *old(
                lottery,
            ),
        },
        old(lottery).wf() ==> final(lottery).wf(),
{
    if !(lottery.state == LotteryState::Open) {
        return Err(LotteryError::InvalidLotteryState);
    }
    if !(now >= lottery.timing.end_time) {
        return Err(LotteryError::InvalidTimeRange);
    }
    if !(lottery.state_data.total_tickets > 0) {
        return Err(LotteryError::MinPoolNotReached);
    }
    let min_pool_reached = match utils::validate_min_pool(
        lottery.lottery_type,
        lottery.state_data.current_pool_amount,
    ) {
        Ok(()) => true,
        Err(e) => { return Err(e); },
    };
    lottery.state = LotteryState::Drawing;
    lottery.timing.last_draw_timestamp = now;
    Ok(
        DrawScheduled {
            lottery_id: lottery.id,
            total_tickets: lottery.state_data.total_tickets,
            timestamp: lottery.timing.last_draw_timestamp,
            min_pool_reached,
        },
    )
}

/// A round cannot be scheduled before its sale window has ended, not even one
/// time unit before, and never without a ticket sold, however late it is.
pub proof fn lemma_schedule_needs_window_and_tickets(round: Lottery, now: i64)
    ensures
        now < round.timing.end_time ==> schedule_refusal(round, now) is Some,
        round.state_data.total_tickets == 0 ==> schedule_refusal(round, now) is Some,
        round.state == LotteryState::Open && now < round.timing.end_time ==> schedule_refusal(
            round,
            now,
        ) == Some(LotteryError::InvalidTimeRange),
        round.state == LotteryState::Open && now >= round.timing.end_time
            && round.state_data.total_tickets == 0 ==> schedule_refusal(round, now) == Some(
            LotteryError::MinPoolNotReached,
        ),
{
}

} // verus!
