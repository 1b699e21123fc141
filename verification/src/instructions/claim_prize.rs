use vstd::prelude::*;
use crate::errors::LotteryError;
use crate::state::lottery::{Lottery, LotteryState};
use crate::utils;

verus! {

/// The record of a prize that was paid.
#[derive(Clone, Copy, Debug, PartialEq, Eq)]
pub struct PrizeClaimed {
    pub lottery_id: u64,
    pub winner: [u8; 32],
    pub amount: u64,
    pub timestamp: i64,
    pub matching_digits: u8,
}

/// What a claim with `user_numbers` at time `now` is owed: the number of
/// matching positions and the payout, or the reason why it is refused.
///
/// The prize must not have been claimed, the round must be completed, the
/// claim window must not have passed, and at least three positions must
/// match. The payout is the tier's percentage of the prize pool, which is
/// itself 90% of the pool.
pub open spec fn claim(round: Lottery, user_numbers: Seq<u8>, now: i64) -> Result<
    (u8, u64),
    LotteryError,
> {
    let matching = utils::matching_digits(user_numbers, round.winning_numbers@);
    if round.prize_claimed {
        Err(LotteryError::PrizeAlreadyClaimed)
    } else if round.state != LotteryState::Completed {
        Err(LotteryError::InvalidLotteryState)
    } else if utils::claim_window_expired(round.timing.last_draw_timestamp, now) {
        Err(LotteryError::ClaimWindowExpired)
    } else if matching < 3 {
        Err(LotteryError::NotWinner)
    } else {
        Ok(
            (
                matching as u8,
                utils::tier_payout(matching as int, round.state_data.prize_amount as int) as u64,
            ),
        )
    }
}

/// The round after its prize was paid to `winner`.
pub open spec fn after_claim(round: Lottery, winner: [u8; 32]) -> Lottery {
    Lottery { prize_claimed: true, winner: Some(winner), ..round }
}

/// Number of matching positions and payout of a claim: what has to be paid
/// out of the round's custody before the claim is booked. Nothing is changed.
/// The payout never exceeds the prize pool.
pub fn claim_amount(lottery: &Lottery, user_numbers: &[u8; 6], now: i64) -> (result: Result<
    (u8, u64),
    LotteryError,
>)
    ensures
        result == claim(*lottery, user_numbers@, now),
        result matches Ok((matching, amount)) ==> 3 <= matching <= 6 && amount
            <= lottery.state_data.prize_amount,
{
    if lottery.prize_claimed {
        return Err(LotteryError::PrizeAlreadyClaimed);
    }
    if !(lottery.state == LotteryState::Completed) {
        return Err(LotteryError::InvalidLotteryState);
    }
    if utils::is_claim_window_expired(lottery.timing.last_draw_timestamp, now) {
        return Err(LotteryError::ClaimWindowExpired);
    }
    let matching_digits = utils::count_matching_digits(user_numbers, &lottery.winning_numbers);
    if !(matching_digits >= 3) {
        return Err(LotteryError::NotWinner);
    }
    let prize_amount = match utils::calculate_prize_amount(
        matching_digits,
        lottery.state_data.prize_amount,
    ) {
        Ok(amount) => amount,
        Err(e) => { return Err(e); },
    };
    proof {
        lemma_payout_within_pool(matching_digits as int, lottery.state_data.prize_amount as int);
    }
    Ok((matching_digits, prize_amount))
}

/// Books a claim by `winner` at time `now`: marks the prize as claimed and
/// records the winner. A claim that is refused changes nothing.
pub fn handler(lottery: &mut Lottery, winner: [u8; 32], user_numbers: [u8; 6], now: i64) -> (result:
    Result<PrizeClaimed, LotteryError>)
    ensures
        match claim(*old(lottery), user_numbers@, now) {
            Ok((matching, amount)) => *final(lottery) == after_claim(*old(lottery), winner)
                && result == Ok::<PrizeClaimed, LotteryError>(
                PrizeClaimed {
                    lottery_id: old(lottery).id,
                    winner,
                    amount,
                    timestamp: now,
                    matching_digits: matching,
                },
            ),
            Err(e) => result == Err::<PrizeClaimed, LotteryError>(e) && *final(lottery) == *old(
                lottery,
            ),
        },
        old(lottery).wf() ==> final(lottery).wf(),
{
    let (matching_digits, prize_amount) = match claim_amount(lottery, &user_numbers, now) {
        Ok(owed) => owed,
        Err(e) => { return Err(e); },
    };
    lottery.prize_claimed = true;
    lottery.winner = Some(winner);
    Ok(
        PrizeClaimed {
            lottery_id: lottery.id,
            winner,
            amount: prize_amount,
            timestamp: now,
            matching_digits,
        },
    )
}

/// A payout is a part of the pool it is taken from.
pub proof fn lemma_payout_within_pool(matching: int, pool: int)
    requires
        0 <= pool,
    ensures
        0 <= utils::tier_payout(matching, pool) <= pool,
{
    let pct = utils::tier_percentage(matching);
    assert(0 <= pool * pct <= pool * 100) by (nonlinear_arith)
        requires
            0 <= pool,
            0 <= pct <= 100,
    ;
}

/// A prize is paid at most once: after a claim has succeeded, every further
/// claim is refused as already claimed, whatever numbers it brings and
/// whenever it comes.
pub proof fn lemma_claim_at_most_once(
    round: Lottery,
    winner: [u8; 32],
    user_numbers: Seq<u8>,
    now: i64,
    next_numbers: Seq<u8>,
    later: i64,
)
    requires
        claim(round, user_numbers, now) is Ok,
    ensures
        claim(after_claim(round, winner), next_numbers, later) == Err::<(u8, u64), LotteryError>(
            LotteryError::PrizeAlreadyClaimed,
        ),
{
}

/// Once the claim window has passed, the claim on an unclaimed, completed
/// round is refused as expired, even if all six digits match.
pub proof fn lemma_claim_after_window(round: Lottery, user_numbers: Seq<u8>, now: i64)
    requires
        round.state == LotteryState::Completed,
        !round.prize_claimed,
        now > round.timing.last_draw_timestamp + utils::CLAIM_WINDOW,
    ensures
        claim(round, user_numbers, now) == Err::<(u8, u64), LotteryError>(
            LotteryError::ClaimWindowExpired,
        ),
{
}

/// Fewer than three matching positions never win, whatever the pool holds.
pub proof fn lemma_low_match_never_wins(round: Lottery, user_numbers: Seq<u8>, now: i64)
    requires
        utils::matching_digits(user_numbers, round.winning_numbers@) < 3,
    ensures
        claim(round, user_numbers, now) is Err,
{
}

} // verus!
