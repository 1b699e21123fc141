use vstd::prelude::*;
use crate::errors::LotteryError;
use crate::state::lottery::{Lottery, LotteryState, LotteryStateData};
use crate::utils;

verus! {

/// What a purchase of `amount` tickets at time `now` costs, or the reason why
/// it is refused.
///
/// The round must be open and its sale window not yet over; the purchase must
/// hold 1 to 5 tickets; and the cost, the new ticket count and the new pool
/// must each fit in 64 bits.
pub open spec fn purchase(round: Lottery, amount: u8, now: i64) -> Result<u64, LotteryError> {
    let cost = round.config.ticket_price * amount;
    if round.state != LotteryState::Open || now >= round.timing.end_time {
        Err(LotteryError::LotteryNotActive)
    } else if !(0 < amount <= utils::MAX_TICKETS_PER_TX) {
        Err(LotteryError::ExceededTicketLimit)
    } else if cost > u64::MAX || round.state_data.total_tickets + amount > u64::MAX
        || round.state_data.current_pool_amount + cost > u64::MAX {
        Err(LotteryError::ArithmeticError)
    } else {
        Ok(cost as u64)
    }
}

/// The round after `amount` tickets were sold for `cost`.
pub open spec fn after_purchase(round: Lottery, amount: u8, cost: u64) -> Lottery {
    Lottery {
        state_data: LotteryStateData {
            total_tickets: (round.state_data.total_tickets + amount) as u64,
            current_pool_amount: (round.state_data.current_pool_amount + cost) as u64,
            ..round.state_data
        },
        ..round
    }
}

/// Price of a purchase: what the buyer has to pay into the round's custody
/// before the purchase is booked. Nothing is changed.
pub fn purchase_cost(lottery: &Lottery, amount: u8, now: i64) -> (result: Result<u64, LotteryError>)
    ensures
        result == purchase(*lottery, amount, now),
{
    if !(lottery.state == LotteryState::Open) {
        return Err(LotteryError::LotteryNotActive);
    }
    if !(now < lottery.timing.end_time) {
        return Err(LotteryError::LotteryNotActive);
    }
    match utils::validate_ticket_purchase(amount) {
        Ok(()) => {},
        Err(e) => { return Err(e); },
    }
    assert(lottery.config.ticket_price * amount <= u64::MAX * u8::MAX <= u128::MAX)
        by (nonlinear_arith)
        requires
            lottery.config.ticket_price <= u64::MAX,
            amount <= u8::MAX,
    ;
    let product = match (lottery.config.ticket_price as u128).checked_mul(amount as u128) {
        Some(p) => p,
        None => { return Err(LotteryError::ArithmeticError); },
    };
    let total_cost = match utils::narrow(product) {
        Some(c) => c,
        None => { return Err(LotteryError::ArithmeticError); },
    };
    if lottery.state_data.total_tickets.checked_add(amount as u64).is_none() {
        return Err(LotteryError::ArithmeticError);
    }
    if lottery.state_data.current_pool_amount.checked_add(total_cost).is_none() {
        return Err(LotteryError::ArithmeticError);
    }
    Ok(total_cost)
}

/// Books a purchase of `amount` tickets at time `now`: the ticket count grows
/// by `amount` and the pool by `amount` times the ticket price. A purchase
/// that is refused changes nothing.
pub fn handler(lottery: &mut Lottery, amount: u8, now: i64) -> (result: Result<(), LotteryError>)
    ensures
        match purchase(*old(lottery), amount, now) {
            Ok(cost) => result is Ok && *final(lottery) == after_purchase(
                *old(lottery),
                amount,
                cost,
            ),
            Err(e) => result == Err::<(), LotteryError>(e) && *final(lottery) == *old(lottery),
        },
        old(lottery).wf() ==> final(lottery).wf(),
{
    let total_cost = match purchase_cost(lottery, amount, now) {
        Ok(c) => c,
        Err(e) => { return Err(e); },
    };
    let total_tickets = match lottery.state_data.total_tickets.checked_add(amount as u64) {
        Some(t) => t,
        None => { return Err(LotteryError::ArithmeticError); },
    };
    let pool = match lottery.state_data.current_pool_amount.checked_add(total_cost) {
        Some(p) => p,
        None => { return Err(LotteryError::ArithmeticError); },
    };
    proof {
        if old(lottery).wf() {
            lemma_pool_tracks_tickets(*old(lottery), amount, now);
        }
    }
    lottery.state_data.total_tickets = total_tickets;
    lottery.state_data.current_pool_amount = pool;
    Ok(())
}

/// While a round is open, its pool is its ticket count times its ticket
/// price: a purchase keeps that equation (and the rest of the round's
/// invariant), and leaves the round open.
pub proof fn lemma_pool_tracks_tickets(round: Lottery, amount: u8, now: i64)
    requires
        round.wf(),
        purchase(round, amount, now) is Ok,
    ensures
        ({
            let next = after_purchase(round, amount, purchase(round, amount, now)->Ok_0);
            &&& next.wf()
            &&& next.state == LotteryState::Open
            &&& next.state_data.current_pool_amount == next.state_data.total_tickets
                * next.config.ticket_price
        }),
{
    let price = round.config.ticket_price;
    let tickets = round.state_data.total_tickets;
    assert((tickets + amount) * price == tickets * price + price * amount) by (nonlinear_arith);
}

} // verus!
