use vstd::prelude::*;
use vstd::bytes::{spec_u64_to_le_bytes, u64_to_le_bytes};
use crate::errors::LotteryError;
use crate::state::lottery::LotteryType;
use sha2::{Digest, Sha256};

verus! {

/// Most tickets one purchase may hold.
pub const MAX_TICKETS_PER_TX: u8 = 5;

/// Seconds after a draw during which the prize can be claimed: 14 days.
pub const CLAIM_WINDOW: i64 = 14 * 24 * 60 * 60;

/// Share of the prize pool, in percent, paid for 6, 5, 4 and 3 matching digits.
pub const PRIZE_TIERS: [u8; 4] = [60, 25, 10, 5];

/// Number of leading bytes of the price feed that seed a draw.
pub const FEED_SEED_LEN: usize = 24;

// ---------------------------------------------------------------------------
// Winning numbers
// ---------------------------------------------------------------------------

/// The SHA-256 digest of a byte string, as the `sha2` crate computes it.
pub uninterp spec fn sha256_digest(data: Seq<u8>) -> Seq<u8>;

/// The bytes that are hashed for a draw: the first 24 bytes of the feed, then
/// the time and the slot, each as eight little-endian bytes (the time in
/// two's complement).
pub open spec fn entropy_input(feed: Seq<u8>, time: i64, slot: u64) -> Seq<u8> {
    feed.subrange(0, FEED_SEED_LEN as int) + spec_u64_to_le_bytes(time as u64)
        + spec_u64_to_le_bytes(slot)
}

/// The six digits drawn from a digest: its first six bytes, each modulo 10.
pub open spec fn digits_of_hash(hash: Seq<u8>) -> Seq<u8> {
    Seq::new(6, |i: int| (hash[i] % 10) as u8)
}

/// The winning numbers that a feed snapshot, a time and a slot determine.
pub open spec fn winning_digits(feed: Seq<u8>, time: i64, slot: u64) -> Seq<u8> {
    digits_of_hash(sha256_digest(entropy_input(feed, time, slot)))
}

/// Every element is a decimal digit.
pub open spec fn all_digits(numbers: Seq<u8>) -> bool {
    forall|i: int| 0 <= i < numbers.len() ==> #[trigger] numbers[i] <= 9
}

/// Calls `sha2::Sha256::digest` (the `Digest` trait's one-shot hash) on `data`
/// and copies the 32 output bytes into an array. Nothing is proved of the
/// hash itself: the contract only names its result `sha256_digest(data@)`.
#[verifier::external_body]
fn sha256(data: &[u8]) -> (digest: [u8; 32])
    ensures
        digest@ == sha256_digest(data@),
{
    Sha256::digest(data).into()
}

/// Hashes the seed of a draw: the first 24 bytes of `data`, followed by the
/// little-endian bytes of `time` and of `slot`.
pub fn hash_data(data: &[u8], time: i64, slot: u64) -> (hash: [u8; 32])
    requires
        data@.len() >= FEED_SEED_LEN,
    ensures
        hash@ == sha256_digest(entropy_input(data@, time, slot)),
{
    let mut message: Vec<u8> = Vec::new();
    let mut i: usize = 0;
    while i < FEED_SEED_LEN
        invariant
            i <= FEED_SEED_LEN,
            data@.len() >= FEED_SEED_LEN,
            message@ == data@.subrange(0, i as int),
        decreases FEED_SEED_LEN - i,
    {
        message.push(data[i]);
        i += 1;
    }
    let mut time_bytes = u64_to_le_bytes(time as u64);
    let mut slot_bytes = u64_to_le_bytes(slot);
    message.append(&mut time_bytes);
    message.append(&mut slot_bytes);
    sha256(message.as_slice())
}

/// Reduces the first six bytes of a digest to decimal digits.
pub fn convert_hash_to_numbers(hash: &[u8; 32]) -> (numbers: [u8; 6])
    ensures
        numbers@ == digits_of_hash(hash@),
        all_digits(numbers@),
{
    let mut numbers = [0u8; 6];
    let mut i: usize = 0;
    while i < 6
        invariant
            i <= 6,
            forall|j: int| 0 <= j < i ==> numbers@[j] == (hash@[j] % 10) as u8,
        decreases 6 - i,
    {
        numbers[i] = hash[i] % 10;
        i += 1;
    }
    numbers
}

/// Derives the six winning digits from a price-feed snapshot, the current
/// time and the current slot. A snapshot of fewer than 24 bytes is refused.
pub fn generate_random_number(price_feed: &[u8], current_time: i64, current_slot: u64) -> (result:
    Result<[u8; 6], LotteryError>)
    ensures
        price_feed@.len() >= FEED_SEED_LEN ==> result is Ok && result->Ok_0@ == winning_digits(
            price_feed@,
            current_time,
            current_slot,
        ) && all_digits(result->Ok_0@),
        price_feed@.len() < FEED_SEED_LEN ==> result == Err::<[u8; 6], LotteryError>(
            LotteryError::InvalidPythFeed,
        ),
{
    if price_feed.len() < FEED_SEED_LEN {
        return Err(LotteryError::InvalidPythFeed);
    }
    let hash = hash_data(price_feed, current_time, current_slot);
    Ok(convert_hash_to_numbers(&hash))
}

// ---------------------------------------------------------------------------
// Prize tiers
// ---------------------------------------------------------------------------

/// The percentage of the prize pool that a match count earns.
pub open spec fn tier_percentage(matching_digits: int) -> int {
    if matching_digits == 6 {
        60
    } else if matching_digits == 5 {
        25
    } else if matching_digits == 4 {
        10
    } else if matching_digits == 3 {
        5
    } else {
        0
    }
}

/// The payout for a match count: `floor(pool * percentage / 100)`.
pub open spec fn tier_payout(matching_digits: int, total_pool: int) -> int {
    total_pool * tier_percentage(matching_digits) / 100
}

/// Payout of one claim. Match counts outside 3..=6 are refused; the product
/// is taken in 128 bits, where it cannot overflow, and the quotient never
/// exceeds the pool.
pub fn calculate_prize_amount(matching_digits: u8, total_pool: u64) -> (result: Result<
    u64,
    LotteryError,
>)
    ensures
        match result {
            Ok(amount) => 3 <= matching_digits <= 6 && amount == tier_payout(
                matching_digits as int,
                total_pool as int,
            ),
            Err(e) => !(3 <= matching_digits <= 6) && e == LotteryError::InvalidPrizeDistribution,
        },
{
    if !(matching_digits >= 3 && matching_digits <= 6) {
        return Err(LotteryError::InvalidPrizeDistribution);
    }
    let tier_index = (6 - matching_digits) as usize;
    let percentage = PRIZE_TIERS[tier_index];
    assert(percentage == tier_percentage(matching_digits as int));
    assert(total_pool * percentage <= total_pool * 100 <= u128::MAX) by (nonlinear_arith)
        requires
            percentage <= 100,
            total_pool <= u64::MAX,
    ;
    let product = match (total_pool as u128).checked_mul(percentage as u128) {
        Some(p) => p,
        None => { return Err(LotteryError::ArithmeticError); },
    };
    let amount = match product.checked_div(100) {
        Some(q) => q,
        None => { return Err(LotteryError::ArithmeticError); },
    };
    match narrow(amount) {
        Some(a) => Ok(a),
        None => Err(LotteryError::ArithmeticError),
    }
}

/// Narrows a 128-bit value to 64 bits, if it fits.
pub fn narrow(value: u128) -> (narrowed: Option<u64>)
    ensures
        value <= u64::MAX ==> narrowed == Some(value as u64),
        value > u64::MAX ==> narrowed is None,
{
    if value <= u64::MAX as u128 {
        Some(value as u64)
    } else {
        None
    }
}

// ---------------------------------------------------------------------------
// Validation
// ---------------------------------------------------------------------------

/// A purchase holds between 1 and 5 tickets.
pub fn validate_ticket_purchase(num_tickets: u8) -> (result: Result<(), LotteryError>)
    ensures
        result == if 0 < num_tickets <= MAX_TICKETS_PER_TX {
            Ok::<(), LotteryError>(())
        } else {
            Err::<(), LotteryError>(LotteryError::ExceededTicketLimit)
        },
{
    if num_tickets > 0 && num_tickets <= MAX_TICKETS_PER_TX {
        Ok(())
    } else {
        Err(LotteryError::ExceededTicketLimit)
    }
}

/// The ticket price must be the one that the category fixes.
pub fn validate_lottery_type(lottery_type: LotteryType, ticket_price: u64) -> (result: Result<
    (),
    LotteryError,
>)
    ensures
        result == if ticket_price == lottery_type.ticket_price() {
            Ok::<(), LotteryError>(())
        } else {
            Err::<(), LotteryError>(LotteryError::InvalidTicketPrice)
        },
{
    let expected_price: u64 = match lottery_type {
        LotteryType::Daily => 1_000_000,
        LotteryType::Weekly => 5_000_000,
        LotteryType::Monthly => 10_000_000,
    };
    if ticket_price == expected_price {
        Ok(())
    } else {
        Err(LotteryError::InvalidTicketPrice)
    }
}

/// The pool must have reached the floor that the category fixes.
pub fn validate_min_pool(lottery_type: LotteryType, current_pool: u64) -> (result: Result<
    (),
    LotteryError,
>)
    ensures
        result == if current_pool >= lottery_type.min_pool() {
            Ok::<(), LotteryError>(())
        } else {
            Err::<(), LotteryError>(LotteryError::MinPoolNotReached)
        },
{
    let min_pool: u64 = match lottery_type {
        LotteryType::Daily => 100_000_000,
        LotteryType::Weekly => 500_000_000,
        LotteryType::Monthly => 1_000_000_000,
    };
    if current_pool >= min_pool {
        Ok(())
    } else {
        Err(LotteryError::MinPoolNotReached)
    }
}

// ---------------------------------------------------------------------------
// Matching
// ---------------------------------------------------------------------------

/// Number of positions below `n` at which the two sequences agree.
pub open spec fn matches_below(user: Seq<u8>, winning: Seq<u8>, n: nat) -> nat
    decreases n,
{
    if n == 0 {
        0
    } else {
        matches_below(user, winning, (n - 1) as nat) + if user[n - 1] == winning[n - 1] {
            1nat
        } else {
            0nat
        }
    }
}

/// Number of the six positions at which a ticket agrees with the draw.
pub open spec fn matching_digits(user: Seq<u8>, winning: Seq<u8>) -> nat {
    matches_below(user, winning, 6)
}

/// A count of matching positions never exceeds the number of positions.
pub proof fn lemma_matches_below_bounded(user: Seq<u8>, winning: Seq<u8>, n: nat)
    ensures
        matches_below(user, winning, n) <= n,
    decreases n,
{
    if n > 0 {
        lemma_matches_below_bounded(user, winning, (n - 1) as nat);
    }
}

/// All positions below `n` match exactly when the two sequences agree there.
pub proof fn lemma_full_match(user: Seq<u8>, winning: Seq<u8>, n: nat)
    ensures
        matches_below(user, winning, n) == n <==> (forall|i: int|
            0 <= i < n ==> user[i] == winning[i]),
    decreases n,
{
    if n > 0 {
        lemma_full_match(user, winning, (n - 1) as nat);
        lemma_matches_below_bounded(user, winning, (n - 1) as nat);
    }
}

/// Counts the positions at which the ticket's digit equals the drawn digit.
pub fn count_matching_digits(user_numbers: &[u8; 6], winning_numbers: &[u8; 6]) -> (count: u8)
    ensures
        count == matching_digits(user_numbers@, winning_numbers@),
        count <= 6,
{
    let mut count: u8 = 0;
    let mut i: usize = 0;
    while i < 6
        invariant
            i <= 6,
            count == matches_below(user_numbers@, winning_numbers@, i as nat),
            count <= i,
        decreases 6 - i,
    {
        if user_numbers[i] == winning_numbers[i] {
            count += 1;
        }
        i += 1;
    }
    count
}

// ---------------------------------------------------------------------------
// Claim window
// ---------------------------------------------------------------------------

/// The claim window of a draw has passed once the time is later than the
/// draw plus 14 days.
pub open spec fn claim_window_expired(draw_timestamp: i64, current_time: i64) -> bool {
    current_time > draw_timestamp + CLAIM_WINDOW
}

/// Whether the claim window of a draw has passed at `current_time`. The sum
/// is taken in 128 bits, so no pair of times is out of range.
pub fn is_claim_window_expired(draw_timestamp: i64, current_time: i64) -> (expired: bool)
    ensures
        expired == claim_window_expired(draw_timestamp, current_time),
{
    (current_time as i128) > (draw_timestamp as i128) + (CLAIM_WINDOW as i128)
}

} // verus!
