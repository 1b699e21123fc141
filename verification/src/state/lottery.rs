use vstd::prelude::*;
use crate::errors::LotteryError;
use crate::utils::all_digits;

verus! {

/// Where a round stands in its life cycle.
///
/// A round is created and opened for sale; once its sale window has ended
/// and its pool has reached the floor it waits for its draw; the draw
/// completes it; a completed round either pays its prize and expires, or,
/// when nobody claims in time, is recycled into a newly created round.
#[derive(Clone, Copy, Debug, PartialEq, Eq, Structural)]
pub enum LotteryState {
    Created,
    Open,
    Drawing,
    Completed,
    Expired,
}

impl Default for LotteryState {
    fn default() -> (state: Self)
        ensures
            state == LotteryState::Created,
    {
        LotteryState::Created
    }
}

/// The category of a round; it fixes the ticket price, the pool floor and
/// the length of the sale window.
#[derive(Clone, Copy, Debug, PartialEq, Eq, Structural)]
pub enum LotteryType {
    Daily,
    Weekly,
    Monthly,
}

impl Default for LotteryType {
    fn default() -> (category: Self)
        ensures
            category == LotteryType::Daily,
    {
        LotteryType::Daily
    }
}

/// What the category fixes for a round, and where its entropy comes from.
#[derive(Clone, Copy, Debug, PartialEq, Eq)]
pub struct LotteryConfig {
    pub ticket_price: u64,
    pub min_pool_amount: u64,
    pub pyth_price_account: [u8; 32],
}

/// The money of a round: what was sold, and how the pool was split at the draw.
#[derive(Clone, Copy, Debug, PartialEq, Eq)]
pub struct LotteryStateData {
    pub total_tickets: u64,
    pub current_pool_amount: u64,
    pub prize_amount: u64,
    pub treasury_fee: u64,
}

/// The sale window of a round and the time of its latest draw step.
#[derive(Clone, Copy, Debug, PartialEq, Eq)]
pub struct LotteryTiming {
    pub start_time: i64,
    pub end_time: i64,
    pub last_draw_timestamp: i64,
}

/// One round of one category. The record is recycled in place: a round that
/// nobody claimed is reset and sold again.
#[derive(Clone, Copy, Debug, PartialEq, Eq)]
pub struct Lottery {
    pub id: u64,
    pub lottery_type: LotteryType,
    pub state: LotteryState,
    pub bump: u8,
    pub config: LotteryConfig,
    pub timing: LotteryTiming,
    pub state_data: LotteryStateData,
    pub winner_ticket: Option<u64>,
    pub winner: Option<[u8; 32]>,
    pub prize_claimed: bool,
    pub winning_numbers: [u8; 6],
}

impl LotteryType {
    /// Price of one ticket of this category.
    pub open spec fn ticket_price(self) -> u64 {
        match self {
            LotteryType::Daily => 1_000_000,
            LotteryType::Weekly => 5_000_000,
            LotteryType::Monthly => 10_000_000,
        }
    }

    /// Smallest pool with which a round of this category may be drawn.
    pub open spec fn min_pool(self) -> u64 {
        match self {
            LotteryType::Daily => 100_000_000,
            LotteryType::Weekly => 500_000_000,
            LotteryType::Monthly => 1_000_000_000,
        }
    }

    /// Length of the sale window of this category, in seconds.
    pub open spec fn duration(self) -> i64 {
        match self {
            LotteryType::Daily => 86_400,
            LotteryType::Weekly => 604_800,
            LotteryType::Monthly => 2_592_000,
        }
    }

    /// The number under which rounds of this category are stored.
    pub fn discriminant(&self) -> (d: u64)
        ensures
            d == match *self {
                LotteryType::Daily => 0u64,
                LotteryType::Weekly => 1u64,
                LotteryType::Monthly => 2u64,
            },
    {
        match self {
            LotteryType::Daily => 0,
            LotteryType::Weekly => 1,
            LotteryType::Monthly => 2,
        }
    }
}

/// The ticket price and the pool floor of a round are constants of its
/// category: 1,000,000 and 100,000,000 for a daily round, 5,000,000 and
/// 500,000,000 for a weekly one, 10,000,000 and 1,000,000,000 for a monthly
/// one. In each category the floor is the price of a hundred tickets.
pub proof fn lemma_category_constants(round: Lottery)
    requires
        round.wf(),
    ensures
        round.config.ticket_price == round.lottery_type.ticket_price(),
        round.config.min_pool_amount == round.lottery_type.min_pool(),
        round.lottery_type == LotteryType::Daily ==> round.config.ticket_price == 1_000_000
            && round.config.min_pool_amount == 100_000_000,
        round.lottery_type == LotteryType::Weekly ==> round.config.ticket_price == 5_000_000
            && round.config.min_pool_amount == 500_000_000,
        round.lottery_type == LotteryType::Monthly ==> round.config.ticket_price == 10_000_000
            && round.config.min_pool_amount == 1_000_000_000,
        round.config.min_pool_amount == 100 * round.config.ticket_price,
{
}

/// The part of a pool that is set aside for prizes at the draw: 90%, rounded
/// down.
pub open spec fn prize_share(pool: int) -> int {
    pool * 90 / 100
}

impl Lottery {
    /// The draw-time split of the pool has not been made (or was cleared).
    pub open spec fn split_is_clear(&self) -> bool {
        &&& self.state_data.prize_amount == 0
        &&& self.state_data.treasury_fee == 0
    }

    /// The pool is split 90/10 between prizes and the operator.
    pub open spec fn split_is_made(&self) -> bool {
        &&& self.state_data.prize_amount == prize_share(self.state_data.current_pool_amount as int)
        &&& self.state_data.prize_amount + self.state_data.treasury_fee
            == self.state_data.current_pool_amount
    }

    /// The round was fit to be drawn: it sold tickets and reached its floor.
    pub open spec fn drawable(&self) -> bool {
        &&& self.state_data.total_tickets > 0
        &&& self.state_data.current_pool_amount >= self.lottery_type.min_pool()
    }

    /// The invariant of a round. Creation establishes it and every
    /// transition keeps it.
    pub open spec fn wf(&self) -> bool {
        &&& self.config.ticket_price == self.lottery_type.ticket_price()
        &&& self.config.min_pool_amount == self.lottery_type.min_pool()
        &&& self.timing.end_time == self.timing.start_time + self.lottery_type.duration()
        &&& self.state_data.current_pool_amount == self.state_data.total_tickets
            * self.config.ticket_price
        &&& all_digits(self.winning_numbers@)
        &&& self.prize_claimed <==> self.winner is Some
        &&& match self.state {
            LotteryState::Created | LotteryState::Open => {
                !self.prize_claimed && self.split_is_clear()
            },
            LotteryState::Drawing => {
                !self.prize_claimed && self.split_is_clear() && self.drawable()
            },
            LotteryState::Completed => self.split_is_made() && self.drawable(),
            LotteryState::Expired => {
                self.prize_claimed && self.split_is_made() && self.drawable()
            },
        }
    }

    /// The pool floor of the round's category.
    pub fn get_min_pool_amount(&self) -> (floor: u64)
        ensures
            floor == self.lottery_type.min_pool(),
    {
        match self.lottery_type {
            LotteryType::Daily => 100_000_000,
            LotteryType::Weekly => 500_000_000,
            LotteryType::Monthly => 1_000_000_000,
        }
    }

    /// The ticket price of the round's category.
    pub fn get_ticket_price(&self) -> (price: u64)
        ensures
            price == self.lottery_type.ticket_price(),
    {
        match self.lottery_type {
            LotteryType::Daily => 1_000_000,
            LotteryType::Weekly => 5_000_000,
            LotteryType::Monthly => 10_000_000,
        }
    }

    /// The length of the sale window of the round's category, in seconds.
    pub fn get_duration(&self) -> (seconds: i64)
        ensures
            seconds == self.lottery_type.duration(),
    {
        match self.lottery_type {
            LotteryType::Daily => 24 * 60 * 60,
            LotteryType::Weekly => 7 * 24 * 60 * 60,
            LotteryType::Monthly => 30 * 24 * 60 * 60,
        }
    }

    /// Opens a created round for sale: a new round as part of its creation, a
    /// recycled round when it is to be sold again. A round in any other state
    /// is refused and left as it is.
    pub fn open(&mut self) -> (result: Result<(), LotteryError>)
        ensures
            old(self).state == LotteryState::Created ==> result is Ok && *final(self) == (Lottery {
                state: LotteryState::Open,
                ..*old(self)
            }),
            old(self).state != LotteryState::Created ==> result == Err::<(), LotteryError>(
                LotteryError::InvalidLotteryState,
            ) && *final(self) == *old(self),
            old(self).wf() ==> final(self).wf(),
    {
        if self.state == LotteryState::Created {
            self.state = LotteryState::Open;
            Ok(())
        } else {
            Err(LotteryError::InvalidLotteryState)
        }
    }
}

} // verus!
