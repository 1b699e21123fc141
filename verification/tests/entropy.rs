use solana_lottery::errors::LotteryError;
use solana_lottery::utils::{convert_hash_to_numbers, generate_random_number, hash_data};

fn feed_of_32() -> Vec<u8> {
    (0u8..32).collect()
}

#[test]
fn hash_data_gives_the_sha256_of_seed_time_and_slot() {
    let expected: [u8; 32] = [
        0x6c, 0x5e, 0xcd, 0xdb, 0xf3, 0xc6, 0x45, 0xa6, 0x7e, 0x0f, 0x9a, 0xb9, 0x6d, 0x79, 0xca,
        0x50, 0x21, 0x73, 0x72, 0x20, 0x26, 0xee, 0xfa, 0xcf, 0x90, 0x9e, 0xb4, 0x71, 0x1a, 0xa2,
        0x66, 0x7b,
    ];
    assert_eq!(hash_data(&feed_of_32(), 1_700_000_000, 42), expected);
}

#[test]
fn hash_data_of_all_zero_inputs() {
    let hash = hash_data(&[0u8; 24], 0, 0);
    assert_eq!(&hash[..6], &[0x2c, 0x34, 0xce, 0x1d, 0xf2, 0x3b]);
    // The hash is not its input handed back.
    assert_ne!(&hash[..24], &[0u8; 24][..]);
}

#[test]
fn winning_numbers_of_a_known_snapshot() {
    assert_eq!(generate_random_number(&feed_of_32(), 1_700_000_000, 42), Ok([8, 4, 5, 9, 3, 8]));
}

#[test]
fn winning_numbers_with_a_negative_time() {
    // -1 is encoded as eight 0xff bytes.
    assert_eq!(generate_random_number(&[7u8; 24], -1, 0), Ok([9, 0, 0, 7, 2, 2]));
}

#[test]
fn winning_numbers_of_a_snapshot_of_exactly_24_bytes() {
    let feed: Vec<u8> = (0u8..24).collect();
    assert_eq!(generate_random_number(&feed, 87_400, 1), Ok([5, 5, 2, 0, 2, 0]));
}

#[test]
fn winning_numbers_are_deterministic() {
    let first = generate_random_number(&feed_of_32(), 1_700_000_000, 42);
    let second = generate_random_number(&feed_of_32(), 1_700_000_000, 42);
    assert_eq!(first, second);
}

#[test]
fn winning_numbers_read_only_the_first_24_bytes() {
    let mut other = feed_of_32();
    for byte in other.iter_mut().skip(24) {
        *byte = 99;
    }
    assert_eq!(
        generate_random_number(&other, 1_700_000_000, 42),
        generate_random_number(&feed_of_32(), 1_700_000_000, 42)
    );
}

#[test]
fn winning_numbers_depend_on_the_slot() {
    assert_eq!(generate_random_number(&feed_of_32(), 1_700_000_000, 43), Ok([9, 2, 4, 4, 9, 3]));
}

#[test]
fn winning_numbers_are_digits() {
    for slot in 0u64..50 {
        let numbers = generate_random_number(&feed_of_32(), 5, slot).unwrap();
        assert!(numbers.iter().all(|d| *d <= 9));
    }
}

#[test]
fn short_snapshot_is_refused() {
    assert_eq!(generate_random_number(&[1u8; 23], 10, 10), Err(LotteryError::InvalidPythFeed));
    assert_eq!(generate_random_number(&[], 10, 10), Err(LotteryError::InvalidPythFeed));
    assert!(generate_random_number(&[1u8; 24], 10, 10).is_ok());
}

#[test]
fn digits_are_the_first_six_bytes_modulo_ten() {
    let mut hash = [0u8; 32];
    hash[0] = 255;
    hash[1] = 10;
    hash[2] = 9;
    hash[3] = 128;
    hash[4] = 0;
    hash[5] = 77;
    hash[6] = 3;
    assert_eq!(convert_hash_to_numbers(&hash), [5, 0, 9, 8, 0, 7]);
}
