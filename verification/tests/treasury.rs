use solana_lottery::errors::LotteryError;
use solana_lottery::instructions::withdraw_treasury;
use solana_lottery::state::{Treasury, TreasuryWithdrawal};

const AUTHORITY: [u8; 32] = [7u8; 32];
const STRANGER: [u8; 32] = [8u8; 32];
const DAY: i64 = 86_400;

fn treasury(balance: u64) -> Treasury {
    Treasury {
        balance,
        fee_bps: 250,
        authority: AUTHORITY,
        token_account: [3u8; 32],
        total_fees_collected: balance,
        last_withdrawal: 0,
        time_locked: 0,
        bump: 254,
    }
}

#[test]
fn fee_is_the_rate_in_basis_points() {
    let mut t = treasury(0);
    assert_eq!(t.collect_fees(1_000_000), Ok(25_000));
    assert_eq!(t.balance, 25_000);
    assert_eq!(t.total_fees_collected, 25_000);
    assert_eq!(t.collect_fees(10_000_000), Ok(250_000));
    assert_eq!(t.balance, 275_000);
    assert_eq!(t.total_fees_collected, 275_000);
}

#[test]
fn fee_is_rounded_down() {
    let mut t = treasury(0);
    assert_eq!(t.collect_fees(39), Ok(0));
    assert_eq!(t.collect_fees(40), Ok(1));
    assert_eq!(t.collect_fees(79), Ok(1));
    assert_eq!(t.balance, 2);
}

#[test]
fn collecting_changes_nothing_but_balance_and_counter() {
    let mut t = treasury(100);
    let before = t;
    t.collect_fees(4_000).unwrap();
    assert_eq!(t, Treasury { balance: 200, total_fees_collected: 200, ..before });
}

#[test]
fn fee_on_the_largest_amount() {
    let mut t = treasury(0);
    // floor(u64::MAX * 250 / 10000)
    assert_eq!(t.collect_fees(u64::MAX), Ok(461_168_601_842_738_790));
}

#[test]
fn fee_that_does_not_fit_is_a_fault() {
    let mut t = treasury(5);
    t.fee_bps = 20_000;
    let before = t;
    assert_eq!(t.collect_fees(u64::MAX), Err(LotteryError::ArithmeticError));
    assert_eq!(t, before);
}

#[test]
fn balance_overflow_is_a_fault_and_changes_nothing() {
    let mut t = treasury(u64::MAX - 10);
    t.total_fees_collected = 0;
    let before = t;
    assert_eq!(t.collect_fees(1_000_000), Err(LotteryError::ArithmeticError));
    assert_eq!(t, before);
}

#[test]
fn counter_overflow_is_a_fault_and_changes_nothing() {
    let mut t = treasury(0);
    t.total_fees_collected = u64::MAX;
    let before = t;
    assert_eq!(t.collect_fees(1_000_000), Err(LotteryError::ArithmeticError));
    assert_eq!(t, before);
}

#[test]
fn a_credit_adds_to_the_balance_alone() {
    let mut t = treasury(100);
    let before = t;
    assert_eq!(t.credit(10_000_000), Ok(()));
    assert_eq!(t, Treasury { balance: 10_000_100, ..before });
    assert_eq!(t.credit(0), Ok(()));
    assert_eq!(t.balance, 10_000_100);
}

#[test]
fn a_credit_that_does_not_fit_is_a_fault() {
    let mut t = treasury(u64::MAX - 5);
    let before = t;
    assert_eq!(t.credit(6), Err(LotteryError::ArithmeticError));
    assert_eq!(t, before);
    assert_eq!(t.credit(5), Ok(()));
    assert_eq!(t.balance, u64::MAX);
}

#[test]
fn only_the_authority_is_an_authorized_signer() {
    let t = treasury(0);
    assert!(t.is_authorized_signer(&AUTHORITY));
    assert!(!t.is_authorized_signer(&STRANGER));
    let mut nearly = AUTHORITY;
    nearly[31] = 0;
    assert!(!t.is_authorized_signer(&nearly));
}

#[test]
fn withdrawal_debits_and_locks_for_a_day() {
    let mut t = treasury(1_000);
    let before = t;
    let record = t.withdraw(400, &AUTHORITY, 5_000);
    assert_eq!(record, Ok(TreasuryWithdrawal { amount: 400, authority: AUTHORITY, timestamp: 5_000 }));
    assert_eq!(
        t,
        Treasury { balance: 600, last_withdrawal: 5_000, time_locked: 5_000 + DAY, ..before }
    );
}

#[test]
fn withdrawal_by_a_stranger_is_refused() {
    let mut t = treasury(1_000);
    let before = t;
    assert_eq!(t.withdraw(1, &STRANGER, 5_000), Err(LotteryError::Unauthorized));
    assert_eq!(t, before);
    // The requester is tested before the lock and the balance.
    t.time_locked = 10_000;
    assert_eq!(t.withdraw(5_000, &STRANGER, 5_000), Err(LotteryError::Unauthorized));
}

#[test]
fn withdrawal_under_lock_is_refused() {
    let mut t = treasury(1_000);
    t.time_locked = 10_000;
    let before = t;
    assert_eq!(t.withdraw(1, &AUTHORITY, 9_999), Err(LotteryError::TimelockActive));
    assert_eq!(t.withdraw(1, &AUTHORITY, 10_000), Err(LotteryError::TimelockActive));
    // The lock is tested before the balance.
    assert_eq!(t.withdraw(5_000, &AUTHORITY, 10_000), Err(LotteryError::TimelockActive));
    assert_eq!(t, before);
    assert!(t.withdraw(1, &AUTHORITY, 10_001).is_ok());
}

#[test]
fn withdrawal_above_the_balance_is_refused() {
    let mut t = treasury(1_000);
    let before = t;
    assert_eq!(t.withdraw(1_001, &AUTHORITY, 5), Err(LotteryError::InsufficientTreasuryBalance));
    assert_eq!(t, before);
    assert!(t.withdraw(1_000, &AUTHORITY, 5).is_ok());
    assert_eq!(t.balance, 0);
}

#[test]
fn withdrawal_whose_lock_does_not_fit_is_a_fault() {
    let mut t = treasury(1_000);
    let before = t;
    assert_eq!(t.withdraw(1, &AUTHORITY, i64::MAX - DAY + 1), Err(LotteryError::ArithmeticError));
    assert_eq!(t, before);
    assert!(t.withdraw(1, &AUTHORITY, i64::MAX - DAY).is_ok());
    assert_eq!(t.time_locked, i64::MAX);
}

#[test]
fn every_withdrawal_rearms_the_lock() {
    let mut t = treasury(1_000);
    let start = 1_700_000_000;
    assert!(t.withdraw(100, &AUTHORITY, start).is_ok());
    assert_eq!(t.time_locked, start + DAY);
    // One second before the lock ends, and at its end.
    assert_eq!(t.withdraw(100, &AUTHORITY, start + DAY - 1), Err(LotteryError::TimelockActive));
    assert_eq!(t.withdraw(100, &AUTHORITY, start + DAY), Err(LotteryError::TimelockActive));
    // Past it the next withdrawal goes through and locks again from its own time.
    let second = start + DAY + 1;
    assert!(t.withdraw(100, &AUTHORITY, second).is_ok());
    assert_eq!(t.time_locked, second + DAY);
    assert_eq!(t.last_withdrawal, second);
    assert_eq!(t.withdraw(100, &AUTHORITY, second + DAY - 1), Err(LotteryError::TimelockActive));
    let third = second + DAY + 1;
    assert!(t.withdraw(100, &AUTHORITY, third).is_ok());
    assert_eq!(t.time_locked, third + DAY);
    assert_eq!(t.balance, 700);
}

#[test]
fn handler_names_the_one_who_asked() {
    let mut t = treasury(1_000);
    let before = t;
    let record = withdraw_treasury::handler(&mut t, 250, STRANGER, &AUTHORITY, 77);
    assert_eq!(
        record,
        Ok(withdraw_treasury::TreasuryWithdrawal { amount: 250, authority: STRANGER, timestamp: 77 })
    );
    assert_eq!(t, Treasury { balance: 750, last_withdrawal: 77, time_locked: 77 + DAY, ..before });
}

#[test]
fn handler_refuses_what_the_ledger_refuses() {
    let mut t = treasury(1_000);
    t.time_locked = 50;
    let before = t;
    assert_eq!(
        withdraw_treasury::handler(&mut t, 1, AUTHORITY, &STRANGER, 100),
        Err(LotteryError::Unauthorized)
    );
    assert_eq!(
        withdraw_treasury::handler(&mut t, 1, AUTHORITY, &AUTHORITY, 50),
        Err(LotteryError::TimelockActive)
    );
    assert_eq!(
        withdraw_treasury::handler(&mut t, 1_001, AUTHORITY, &AUTHORITY, 51),
        Err(LotteryError::InsufficientTreasuryBalance)
    );
    assert_eq!(t, before);
}

#[test]
fn lamports_move_from_source_to_destination() {
    assert_eq!(withdraw_treasury::transfer_lamports(1_000, 5, 400), Ok((600, 405)));
    assert_eq!(withdraw_treasury::transfer_lamports(1_000, 0, 1_000), Ok((0, 1_000)));
    assert_eq!(withdraw_treasury::transfer_lamports(7, 7, 0), Ok((7, 7)));
}

#[test]
fn lamports_that_are_not_there_or_do_not_fit_are_a_fault() {
    assert_eq!(
        withdraw_treasury::transfer_lamports(399, 5, 400),
        Err(LotteryError::ArithmeticError)
    );
    assert_eq!(
        withdraw_treasury::transfer_lamports(1_000, u64::MAX - 399, 400),
        Err(LotteryError::ArithmeticError)
    );
    assert_eq!(
        withdraw_treasury::transfer_lamports(1_000, u64::MAX - 400, 400),
        Ok((600, u64::MAX))
    );
}
