use vstd::prelude::*;
use crate::errors::LotteryError;
use crate::state::lottery::{prize_share, Lottery, LotteryState, LotteryStateData, LotteryTiming};
use crate::utils;

verus! {

/// The record of a draw.
#[derive(Clone, Copy, Debug, PartialEq, Eq)]
pub struct DrawExecuted {
    pub lottery_id: u64,
    pub winning_numbers: [u8; 6],
    pub timestamp: i64,
}

/// Splits a pool at the draw: 90%, rounded down, for prizes, and the rest for
/// the operator. The two parts add up to the pool. The product is taken in 128
/// bits, so no pool is too large.
pub fn calculate_prize_distribution(total_pool: u64) -> (result: Result<(u64, u64), LotteryError>)
    ensures
        result == Ok::<(u64, u64), LotteryError>(
            (prize_share(total_pool as int) as u64, (total_pool - prize_share(total_pool as int)) as u64),
        ),
        0 <= prize_share(total_pool as int) <= total_pool,
{
    let prize = (total_pool as u128 * 90) / 100;
    let prize_amount = match utils::narrow(prize) {
        Some(p) => p,
        None => { return Err(LotteryError::ArithmeticError); },
    };
    let treasury_fee = match total_pool.checked_sub(prize_amount) {
        Some(f) => f,
        None => { return Err(LotteryError::ArithmeticError); },
    };
    Ok((prize_amount, treasury_fee))
}

/// The round after a draw at time `now` that gave `winning_numbers`.
pub open spec fn after_draw(round: Lottery, winning_numbers: [u8; 6], now: i64) -> Lottery {
    let pool = round.state_data.current_pool_amount;
    Lottery {
        state: LotteryState::Completed,
        winning_numbers,
        timing: LotteryTiming { last_draw_timestamp: now, ..round.timing },
        state_data: LotteryStateData {
            prize_amount: prize_share(pool as int) as u64,
            treasury_fee: (pool - prize_share(pool as int)) as u64,
            ..round.state_data
        },
        ..round
    }
}

/// Why a round cannot be drawn from a feed snapshot, if it cannot: it is not
/// waiting for its draw, or the snapshot is shorter than 24 bytes.
pub open spec fn draw_refusal(round: Lottery, price_feed: Seq<u8>) -> Option<LotteryError> {
    if round.state != LotteryState::Drawing {
        Some(LotteryError::InvalidLotteryState)
    } else if price_feed.len() < utils::FEED_SEED_LEN {
        Some(LotteryError::InvalidPythFeed)
    } else {
        None
    }
}

/// Completes a round that waits for its draw with the given winning numbers:
/// records them and the time, and splits the pool 90/10. A round in any other
/// state is refused and left as it is.
pub fn apply_draw(lottery: &mut Lottery, winning_numbers: [u8; 6], now: i64) -> (result: Result<
    DrawExecuted,
    LotteryError,
>)
    ensures
        old(lottery).state == LotteryState::Drawing ==> *final(lottery) == after_draw(
            *old(lottery),
            winning_numbers,
            now,
        ) && result == Ok::<DrawExecuted, LotteryError>(
            DrawExecuted { lottery_id: old(lottery).id, winning_numbers, timestamp: now },
        ),
        old(lottery).state != LotteryState::Drawing ==> *final(lottery) == *old(lottery) && result
            == Err::<DrawExecuted, LotteryError>(LotteryError::InvalidLotteryState),
        old(lottery).wf() && utils::all_digits(winning_numbers@) ==> final(lottery).wf(),
{
    if !(lottery.state == LotteryState::Drawing) {
        return Err(LotteryError::InvalidLotteryState);
    }
    let total_pool = lottery.state_data.current_pool_amount;
    let (prize_amount, treasury_fee) = match calculate_prize_distribution(total_pool) {
        Ok(split) => split,
        Err(e) => { return Err(e); },
    };
    lottery.winning_numbers = winning_numbers;
    lottery.state = LotteryState::Completed;
    lottery.timing.last_draw_timestamp = now;
    lottery.state_data.prize_amount = prize_amount;
    lottery.state_data.treasury_fee = treasury_fee;
    Ok(DrawExecuted { lottery_id: lottery.id, winning_numbers, timestamp: now })
}

/// Draws a round that waits for its draw: derives the winning numbers from
/// the feed snapshot, the time and the slot, and completes the round with
/// them. A round that is refused is left as it is.
pub fn handler(lottery: &mut Lottery, price_feed: &[u8], now: i64, slot: u64) -> (result: Result<
    DrawExecuted,
    LotteryError,
>)
    ensures
        match draw_refusal(*old(lottery), price_feed@) {
            None => {
                &&& final(lottery).winning_numbers@ == utils::winning_digits(price_feed@, now, slot)
                &&& *final(lottery) == after_draw(
                    *old(lottery),
                    final(lottery).winning_numbers,
                    now,
                )
                &&& result == Ok::<DrawExecuted, LotteryError>(
                    DrawExecuted {
                        lottery_id: old(lottery).id,
                        winning_numbers: final(lottery).winning_numbers,
                        timestamp: now,
                    },
                )
            },
            Some(e) => result == Err::<DrawExecuted, LotteryError>(e) && *final(lottery) == *old(
                lottery,
            ),
        },
        old(lottery).wf() ==> final(lottery).wf(),
{
    if !(lottery.state == LotteryState::Drawing) {
        return Err(LotteryError::InvalidLotteryState);
    }
    let winning_numbers = match utils::generate_random_number(price_feed, now, slot) {
        Ok(numbers) => numbers,
        Err(e) => { return Err(e); },
    };
    apply_draw(lottery, winning_numbers, now)
}

/// A round is drawn once per drawing episode: the draw leaves the round
/// completed, so a second draw is refused, as is any draw of a round that
/// does not wait for one.
pub proof fn lemma_draw_only_once(
    round: Lottery,
    winning_numbers: [u8; 6],
    now: i64,
    next_feed: Seq<u8>,
)
    ensures
        round.state != LotteryState::Drawing ==> draw_refusal(round, next_feed) == Some(
            LotteryError::InvalidLotteryState,
        ),
        after_draw(round, winning_numbers, now).state == LotteryState::Completed,
        draw_refusal(after_draw(round, winning_numbers, now), next_feed) == Some(
            LotteryError::InvalidLotteryState,
        ),
{
}

/// The draw splits the whole pool and nothing else: the prize pool and the
/// operator's fee add up to the pool as it was frozen.
pub proof fn lemma_draw_splits_pool(round: Lottery, winning_numbers: [u8; 6], now: i64)
    ensures
        ({
            let drawn = after_draw(round, winning_numbers, now);
            &&& drawn.state_data.current_pool_amount == round.state_data.current_pool_amount
            &&& drawn.state_data.total_tickets == round.state_data.total_tickets
            &&& drawn.state_data.prize_amount + drawn.state_data.treasury_fee
                == round.state_data.current_pool_amount
            &&& drawn.state_data.prize_amount == round.state_data.current_pool_amount * 90 / 100
        }),
{
}

} // verus!
