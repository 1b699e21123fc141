use vstd::prelude::*;
use crate::errors::LotteryError;
use crate::state::lottery::{
    Lottery, LotteryConfig, LotteryState, LotteryStateData, LotteryTiming, LotteryType,
};
use crate::utils;

verus! {

/// Whether `round` is the round that creation at time `now` yields: open for
/// sale, with the price and the floor of its category, a sale window that
/// starts at `now`, nothing sold, nothing drawn and nobody paid.
pub open spec fn is_new_round(
    round: Lottery,
    lottery_type: LotteryType,
    bump: u8,
    pyth_price_feed: [u8; 32],
    now: i64,
) -> bool {
    &&& round.id == now as u64
    &&& round.lottery_type == lottery_type
    &&& round.state == LotteryState::Open
    &&& round.bump == bump
    &&& round.config == (LotteryConfig {
        ticket_price: lottery_type.ticket_price(),
        min_pool_amount: lottery_type.min_pool(),
        pyth_price_account: pyth_price_feed,
    })
    &&& round.timing == (LotteryTiming {
        start_time: now,
        end_time: (now + lottery_type.duration()) as i64,
        last_draw_timestamp: 0,
    })
    &&& round.state_data == (LotteryStateData {
        total_tickets: 0,
        current_pool_amount: 0,
        prize_amount: 0,
        treasury_fee: 0,
    })
    &&& round.winner_ticket is None
    &&& round.winner is None
    &&& !round.prize_claimed
    &&& round.winning_numbers@ == Seq::new(6, |i: int| 0u8)
}

/// Creates the round of a category at time `now` and opens it for sale.
///
/// The only fault is a sale window whose end does not fit in the time type.
pub fn handler(lottery_type: LotteryType, bump: u8, pyth_price_feed: [u8; 32], now: i64) -> (result:
    Result<Lottery, LotteryError>)
    ensures
        match result {
            Ok(round) => now + lottery_type.duration() <= i64::MAX && is_new_round(
                round,
                lottery_type,
                bump,
                pyth_price_feed,
                now,
            ) && round.wf(),
            Err(e) => now + lottery_type.duration() > i64::MAX && e
                == LotteryError::ArithmeticError,
        },
{
    let mut lottery = Lottery {
        id: now as u64,
        lottery_type,
        state: LotteryState::Created,
        bump,
        config: LotteryConfig { ticket_price: 0, min_pool_amount: 0, pyth_price_account: pyth_price_feed },
        timing: LotteryTiming { start_time: now, end_time: now, last_draw_timestamp: 0 },
        state_data: LotteryStateData {
            total_tickets: 0,
            current_pool_amount: 0,
            prize_amount: 0,
            treasury_fee: 0,
        },
        winner_ticket: None,
        winner: None,
        prize_claimed: false,
        winning_numbers: [0u8; 6],
    };
    lottery.config.ticket_price = lottery.get_ticket_price();
    lottery.config.min_pool_amount = lottery.get_min_pool_amount();
    lottery.timing.end_time = match now.checked_add(lottery.get_duration()) {
        Some(end) => end,
        None => { return Err(LotteryError::ArithmeticError); },
    };
    match utils::validate_lottery_type(lottery_type, lottery.config.ticket_price) {
        Ok(()) => {},
        Err(e) => { return Err(e); },
    }
    match lottery.open() {
        Ok(()) => {},
        Err(e) => { return Err(e); },
    }
    assert(lottery.winning_numbers@ =~= Seq::new(6, |i: int| 0u8));
    Ok(lottery)
}

} // verus!
