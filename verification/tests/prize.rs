use solana_lottery::errors::LotteryError;
use solana_lottery::state::LotteryType;
use solana_lottery::utils::{
    calculate_prize_amount, count_matching_digits, is_claim_window_expired, narrow,
    validate_lottery_type, validate_min_pool, validate_ticket_purchase, CLAIM_WINDOW,
    MAX_TICKETS_PER_TX, PRIZE_TIERS,
};

#[test]
fn constants_have_their_values() {
    assert_eq!(MAX_TICKETS_PER_TX, 5);
    assert_eq!(CLAIM_WINDOW, 1_209_600);
    assert_eq!(PRIZE_TIERS, [60, 25, 10, 5]);
}

#[test]
fn each_tier_pays_its_percentage() {
    assert_eq!(calculate_prize_amount(6, 90_000_000), Ok(54_000_000));
    assert_eq!(calculate_prize_amount(5, 90_000_000), Ok(22_500_000));
    assert_eq!(calculate_prize_amount(4, 90_000_000), Ok(9_000_000));
    assert_eq!(calculate_prize_amount(3, 90_000_000), Ok(4_500_000));
}

#[test]
fn payout_is_rounded_down() {
    assert_eq!(calculate_prize_amount(3, 19), Ok(0));
    assert_eq!(calculate_prize_amount(3, 20), Ok(1));
    assert_eq!(calculate_prize_amount(6, 101), Ok(60));
    assert_eq!(calculate_prize_amount(5, 7), Ok(1));
    assert_eq!(calculate_prize_amount(4, 0), Ok(0));
}

#[test]
fn payout_of_the_largest_pool_does_not_overflow() {
    assert_eq!(calculate_prize_amount(6, u64::MAX), Ok(11_068_046_444_225_730_969));
    assert_eq!(calculate_prize_amount(3, u64::MAX), Ok(922_337_203_685_477_580));
}

#[test]
fn match_counts_outside_three_to_six_are_refused() {
    for matching in [0u8, 1, 2, 7, 8, 255] {
        assert_eq!(
            calculate_prize_amount(matching, 1_000),
            Err(LotteryError::InvalidPrizeDistribution)
        );
    }
}

#[test]
fn narrowing_keeps_what_fits() {
    assert_eq!(narrow(0), Some(0));
    assert_eq!(narrow(u64::MAX as u128), Some(u64::MAX));
    assert_eq!(narrow(u64::MAX as u128 + 1), None);
    assert_eq!(narrow(u128::MAX), None);
}

#[test]
fn a_purchase_holds_one_to_five_tickets() {
    assert_eq!(validate_ticket_purchase(0), Err(LotteryError::ExceededTicketLimit));
    for n in 1u8..=5 {
        assert_eq!(validate_ticket_purchase(n), Ok(()));
    }
    assert_eq!(validate_ticket_purchase(6), Err(LotteryError::ExceededTicketLimit));
    assert_eq!(validate_ticket_purchase(255), Err(LotteryError::ExceededTicketLimit));
}

#[test]
fn each_category_has_one_ticket_price() {
    assert_eq!(validate_lottery_type(LotteryType::Daily, 1_000_000), Ok(()));
    assert_eq!(validate_lottery_type(LotteryType::Weekly, 5_000_000), Ok(()));
    assert_eq!(validate_lottery_type(LotteryType::Monthly, 10_000_000), Ok(()));
    assert_eq!(
        validate_lottery_type(LotteryType::Daily, 5_000_000),
        Err(LotteryError::InvalidTicketPrice)
    );
    assert_eq!(
        validate_lottery_type(LotteryType::Weekly, 4_999_999),
        Err(LotteryError::InvalidTicketPrice)
    );
    assert_eq!(validate_lottery_type(LotteryType::Monthly, 0), Err(LotteryError::InvalidTicketPrice));
}

#[test]
fn each_category_has_one_pool_floor() {
    assert_eq!(validate_min_pool(LotteryType::Daily, 100_000_000), Ok(()));
    assert_eq!(validate_min_pool(LotteryType::Daily, 99_999_999), Err(LotteryError::MinPoolNotReached));
    assert_eq!(validate_min_pool(LotteryType::Weekly, 500_000_000), Ok(()));
    assert_eq!(validate_min_pool(LotteryType::Weekly, 499_999_999), Err(LotteryError::MinPoolNotReached));
    assert_eq!(validate_min_pool(LotteryType::Monthly, 1_000_000_000), Ok(()));
    assert_eq!(
        validate_min_pool(LotteryType::Monthly, 999_999_999),
        Err(LotteryError::MinPoolNotReached)
    );
    assert_eq!(validate_min_pool(LotteryType::Monthly, u64::MAX), Ok(()));
}

#[test]
fn matches_are_counted_by_position() {
    let winning = [1u8, 2, 3, 4, 5, 6];
    assert_eq!(count_matching_digits(&[1, 2, 3, 4, 5, 6], &winning), 6);
    assert_eq!(count_matching_digits(&[1, 2, 3, 4, 5, 0], &winning), 5);
    assert_eq!(count_matching_digits(&[0, 2, 0, 4, 0, 6], &winning), 3);
    assert_eq!(count_matching_digits(&[9, 9, 9, 9, 9, 9], &winning), 0);
}

#[test]
fn a_digit_in_another_position_is_no_match() {
    let winning = [1u8, 2, 3, 4, 5, 6];
    // The same digits, each one place further.
    assert_eq!(count_matching_digits(&[6, 1, 2, 3, 4, 5], &winning), 0);
    assert_eq!(count_matching_digits(&[2, 1, 3, 4, 6, 5], &winning), 2);
}

#[test]
fn the_claim_window_is_fourteen_days() {
    let draw = 1_700_000_000;
    assert!(!is_claim_window_expired(draw, draw));
    assert!(!is_claim_window_expired(draw, draw + 1_209_599));
    assert!(!is_claim_window_expired(draw, draw + 1_209_600));
    assert!(is_claim_window_expired(draw, draw + 1_209_601));
    assert!(!is_claim_window_expired(draw, 0));
}

#[test]
fn the_claim_window_at_the_ends_of_time() {
    assert!(!is_claim_window_expired(i64::MAX, i64::MAX));
    assert!(!is_claim_window_expired(i64::MAX - 1_209_600, i64::MAX));
    assert!(is_claim_window_expired(i64::MAX - 1_209_601, i64::MAX));
    assert!(is_claim_window_expired(i64::MIN, i64::MIN + 1_209_601));
    assert!(!is_claim_window_expired(i64::MIN, i64::MIN + 1_209_600));
}
