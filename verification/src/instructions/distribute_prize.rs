use vstd::prelude::*;
use crate::errors::LotteryError;
use crate::state::lottery::{Lottery, LotteryState};
use crate::state::treasury::Treasury;
use crate::instructions::claim_prize::{after_claim, claim, lemma_payout_within_pool};

verus! {

/// The record of a round whose remainder went to the treasury.
#[derive(Clone, Copy, Debug, PartialEq, Eq)]
pub struct PrizeDistributed {
    pub lottery_id: u64,
    pub prize_amount: u64,
    pub treasury_fee: u64,
    pub timestamp: i64,
}

/// What the treasury is owed by a round whose prize was claimed: the pool
/// less the prize pool, or the reason why nothing is distributed.
///
/// The round must be completed and its prize claimed; the prize pool must not
/// exceed the pool; and the treasury's balance must have room for the
/// remainder.
pub open spec fn distribution(round: Lottery, ledger: Treasury) -> Result<u64, LotteryError> {
    let pool = round.state_data.current_pool_amount;
    let prize = round.state_data.prize_amount;
    if round.state != LotteryState::Completed {
        Err(LotteryError::InvalidLotteryState)
    } else if !round.prize_claimed {
        Err(LotteryError::InvalidPrizeClaim)
    } else if pool < prize || ledger.balance + (pool - prize) > u64::MAX {
        Err(LotteryError::ArithmeticError)
    } else {
        Ok((pool - prize) as u64)
    }
}

/// The round after its remainder was distributed.
pub open spec fn after_distribution(round: Lottery) -> Lottery {
    Lottery { state: LotteryState::Expired, ..round }
}

/// The remainder of a claimed round: what has to be moved from the round's
/// custody to the treasury's before the distribution is booked. Nothing is
/// changed. In a round that keeps its invariant this is the operator's fee
/// that the draw set aside.
pub fn remaining_amount(lottery: &Lottery, treasury: &Treasury) -> (result: Result<
    u64,
    LotteryError,
>)
    ensures
        result == distribution(*lottery, *treasury),
        lottery.wf() ==> (result matches Ok(amount) ==> amount == lottery.state_data.treasury_fee),
{
    if !(lottery.state == LotteryState::Completed) {
        return Err(LotteryError::InvalidLotteryState);
    }
    if !lottery.prize_claimed {
        return Err(LotteryError::InvalidPrizeClaim);
    }
    let amount = match lottery.state_data.current_pool_amount.checked_sub(
        lottery.state_data.prize_amount,
    ) {
        Some(amount) => amount,
        None => { return Err(LotteryError::ArithmeticError); },
    };
    if treasury.balance.checked_add(amount).is_none() {
        return Err(LotteryError::ArithmeticError);
    }
    Ok(amount)
}

/// Books the distribution of a claimed round at time `now`: the remainder is
/// credited to the treasury and the round expires. A distribution that is
/// refused changes neither the round nor the treasury.
pub fn handler(lottery: &mut Lottery, treasury: &mut Treasury, now: i64) -> (result: Result<
    PrizeDistributed,
    LotteryError,
>)
    ensures
        match distribution(*old(lottery), *old(treasury)) {
            Ok(amount) => {
                &&& *final(lottery) == after_distribution(*old(lottery))
                &&& *final(treasury) == old(treasury).credited(amount)
                &&& result == Ok::<PrizeDistributed, LotteryError>(
                    PrizeDistributed {
                        lottery_id: old(lottery).id,
                        prize_amount: old(lottery).state_data.prize_amount,
                        treasury_fee: old(lottery).state_data.treasury_fee,
                        timestamp: now,
                    },
                )
            },
            Err(e) => {
                &&& result == Err::<PrizeDistributed, LotteryError>(e)
                &&& *final(lottery) == *old(lottery)
                &&& *final(treasury) == *old(treasury)
            },
        },
        old(lottery).wf() ==> final(lottery).wf(),
{
    let remaining_amount = match remaining_amount(lottery, treasury) {
        Ok(amount) => amount,
        Err(e) => { return Err(e); },
    };
    match treasury.credit(remaining_amount) {
        Ok(()) => {},
        Err(e) => { return Err(e); },
    }
    lottery.state = LotteryState::Expired;
    Ok(
        PrizeDistributed {
            lottery_id: lottery.id,
            prize_amount: lottery.state_data.prize_amount,
            treasury_fee: lottery.state_data.treasury_fee,
            timestamp: now,
        },
    )
}

/// A round never gives out more than it took in: what its winner is paid and
/// what is then swept to the treasury together stay within the pool.
pub proof fn lemma_payout_and_remainder_within_pool(
    round: Lottery,
    ledger: Treasury,
    winner: [u8; 32],
    user_numbers: Seq<u8>,
    now: i64,
)
    requires
        claim(round, user_numbers, now) is Ok,
        distribution(after_claim(round, winner), ledger) is Ok,
    ensures
        claim(round, user_numbers, now)->Ok_0.1 + distribution(
            after_claim(round, winner),
            ledger,
        )->Ok_0 <= round.state_data.current_pool_amount,
{
    lemma_payout_within_pool(
        crate::utils::matching_digits(user_numbers, round.winning_numbers@) as int,
        round.state_data.prize_amount as int,
    );
}

} // verus!
