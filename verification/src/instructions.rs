use vstd::prelude::*;
use crate::state::lottery::Lottery;

pub mod buy_ticket;
pub mod claim_prize;
pub mod create_lottery;
pub mod distribute_prize;
pub mod execute_draw;
pub mod recycle_unclaimed;
pub mod schedule_draw;
pub mod withdraw_treasury;

verus! {

/// Two states of a round agree on its identity, its category and on what the
/// category fixes: the ticket price and the pool floor.
pub open spec fn same_category(before: Lottery, after: Lottery) -> bool {
    &&& after.id == before.id
    &&& after.lottery_type == before.lottery_type
    &&& after.config == before.config
}

/// No transition of a round touches its category, its ticket price or its
/// pool floor: they are what creation made them for as long as the round
/// lives, through every sale, draw, claim, distribution and recycling.
pub proof fn lemma_category_is_fixed(
    round: Lottery,
    amount: u8,
    cost: u64,
    winning_numbers: [u8; 6],
    winner: [u8; 32],
    now: i64,
)
    ensures
        same_category(round, buy_ticket::after_purchase(round, amount, cost)),
        same_category(round, schedule_draw::after_schedule(round, now)),
        same_category(round, execute_draw::after_draw(round, winning_numbers, now)),
        same_category(round, claim_prize::after_claim(round, winner)),
        same_category(round, distribute_prize::after_distribution(round)),
        same_category(round, recycle_unclaimed::after_recycle(round, now)),
{
}

} // verus!
