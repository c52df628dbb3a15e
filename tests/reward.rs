use agrotm::error::ErrorCode;
use agrotm::reward::{accrued_yield, calculate_rewards, DEFAULT_REWARD_RATE, YIELD_DENOMINATOR};

#[test]
fn test_calculate_rewards() {
    let amount = 1_000_000; // 1 token with 6 decimals
    let duration = 365 * 24 * 60 * 60; // 1 year in seconds

    let rewards = calculate_rewards(amount, duration).unwrap();

    // 10% a year on 1 token for 1 year is 0.1 tokens
    let expected_rewards = 100_000;
    assert_eq!(rewards, expected_rewards);
}

#[test]
fn yield_of_one_year_at_ten_percent() {
    assert_eq!(accrued_yield(1_000_000, 1000, 31_536_000), Ok(100_000));
}

#[test]
fn yield_rounds_down() {
    // 1 * 1000 * 1 / 315_360_000_000 is far below one unit.
    assert_eq!(accrued_yield(1, 1000, 1), Ok(0));
    // 999_999 * 1000 * 31_536_000 / 315_360_000_000 = 99_999.9
    assert_eq!(accrued_yield(999_999, 1000, 31_536_000), Ok(99_999));
}

#[test]
fn yield_is_zero_without_time_principal_or_rate() {
    assert_eq!(accrued_yield(1_000_000, 1000, 0), Ok(0));
    assert_eq!(accrued_yield(0, 1000, 31_536_000), Ok(0));
    assert_eq!(accrued_yield(1_000_000, 0, 31_536_000), Ok(0));
}

#[test]
fn yield_grows_with_time_and_principal() {
    let mut last = 0;
    for t in [0i64, 1, 60, 3600, 86_400, 31_536_000, 63_072_000] {
        let y = accrued_yield(5_000_000, 1000, t).unwrap();
        assert!(y >= last);
        last = y;
    }
    let mut last = 0;
    for p in [0u64, 1, 1000, 1_000_000, 1_000_000_000] {
        let y = accrued_yield(p, 2500, 31_536_000).unwrap();
        assert!(y >= last);
        last = y;
    }
}

#[test]
fn yield_overflow_of_the_wide_product() {
    assert_eq!(accrued_yield(u64::MAX, u64::MAX, i64::MAX), Err(ErrorCode::Overflow));
}

#[test]
fn yield_overflow_of_the_result() {
    // The product fits in 128 bits, the quotient does not fit in 64.
    assert_eq!(accrued_yield(u64::MAX, u64::MAX, 1), Err(ErrorCode::Overflow));
}

#[test]
fn yield_largest_that_fits() {
    let y = accrued_yield(u64::MAX, 10_000, 31_536_000).unwrap();
    assert_eq!(y, u64::MAX);
    assert_eq!(YIELD_DENOMINATOR, 10_000u128 * 31_536_000u128);
}

#[test]
fn calculate_rewards_uses_the_default_rate() {
    assert_eq!(DEFAULT_REWARD_RATE, 1000);
    assert_eq!(calculate_rewards(2_000_000, 15_768_000), Ok(100_000));
    assert_eq!(calculate_rewards(1_000_000, 0), Ok(0));
    assert_eq!(calculate_rewards(1_000_000, -5), Ok(0));
}
