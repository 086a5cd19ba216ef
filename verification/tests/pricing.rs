use prediction_market::arith::{checked_add, mul_div};
use prediction_market::{
    calculate_probability, calculate_shares, ErrorCode, Identity, EVEN_ODDS, PROBABILITY_SCALE,
};

#[test]
fn scale_and_even_odds_are_fixed() {
    assert_eq!(PROBABILITY_SCALE, 1_000_000);
    assert_eq!(EVEN_ODDS, 500_000);
}

#[test]
fn one_share_is_issued_per_unit() {
    assert_eq!(calculate_shares(500_000, true, 0, 0, 1_000_000), Ok(500_000));
    assert_eq!(calculate_shares(500_000, false, 0, 0, 1_000_000), Ok(500_000));
    // Neither the totals nor the liquidity parameter move the rate.
    assert_eq!(calculate_shares(1, true, 9_000, 3, 1), Ok(1));
    assert_eq!(calculate_shares(1, true, 3, 9_000, u64::MAX), Ok(1));
    assert_eq!(calculate_shares(u64::MAX, false, u64::MAX, u64::MAX, 0), Ok(u64::MAX));
    assert_eq!(calculate_shares(0, true, 0, 0, 0), Ok(0));
}

#[test]
fn empty_market_shows_even_odds() {
    assert_eq!(calculate_probability(0, 0, 1_000_000), Ok(500_000));
    assert_eq!(calculate_probability(0, 0, 0), Ok(500_000));
}

#[test]
fn probability_is_the_floored_yes_fraction() {
    assert_eq!(calculate_probability(500_000, 0, 1), Ok(1_000_000));
    assert_eq!(calculate_probability(0, 500_000, 1), Ok(0));
    assert_eq!(calculate_probability(500_000, 500_000, 1), Ok(500_000));
    assert_eq!(calculate_probability(1, 2, 1), Ok(333_333));
    assert_eq!(calculate_probability(2, 1, 1), Ok(666_666));
    assert_eq!(calculate_probability(1, 1_000_000, 1), Ok(0));
    assert_eq!(calculate_probability(1, 999_999, 1), Ok(1));
    // The liquidity parameter does not enter.
    assert_eq!(calculate_probability(1, 2, 77), Ok(333_333));
}

#[test]
fn probability_of_the_largest_totals_needs_the_wide_product() {
    // u64::MAX * 1_000_000 does not fit in 64 bits; the quotient does.
    assert_eq!(calculate_probability(u64::MAX, 0, 1), Ok(1_000_000));
    assert_eq!(calculate_probability(u64::MAX - 1, 1, 1), Ok(999_999));
    assert_eq!(calculate_probability(1 << 63, (1 << 63) - 1, 1), Ok(500_000));
}

#[test]
fn probability_fails_when_the_totals_do_not_add_up() {
    assert_eq!(calculate_probability(u64::MAX, 1, 1), Err(ErrorCode::ArithmeticOverflow));
    assert_eq!(calculate_probability(1, u64::MAX, 1), Err(ErrorCode::ArithmeticOverflow));
    assert_eq!(calculate_probability(1 << 63, 1 << 63, 1), Err(ErrorCode::ArithmeticOverflow));
}

#[test]
fn probability_never_leaves_the_scale() {
    let totals = [0u64, 1, 2, 3, 999_999, 1_000_000, 1_000_001, u64::MAX / 2, u64::MAX - 1];
    for yes in totals {
        for no in totals {
            if let Ok(probability) = calculate_probability(yes, no, 1) {
                assert!(probability <= PROBABILITY_SCALE);
            }
        }
    }
}

#[test]
fn checked_add_reports_overflow() {
    assert_eq!(checked_add(0, 0), Ok(0));
    assert_eq!(checked_add(2, 3), Ok(5));
    assert_eq!(checked_add(u64::MAX - 1, 1), Ok(u64::MAX));
    assert_eq!(checked_add(u64::MAX, 1), Err(ErrorCode::ArithmeticOverflow));
    assert_eq!(checked_add(u64::MAX, u64::MAX), Err(ErrorCode::ArithmeticOverflow));
}

#[test]
fn mul_div_floors_the_wide_quotient() {
    assert_eq!(mul_div(500_000, 2_000_000, 500_000), Ok(2_000_000));
    assert_eq!(mul_div(1, 10, 3), Ok(3));
    assert_eq!(mul_div(2, 10, 3), Ok(6));
    assert_eq!(mul_div(0, 10, 3), Ok(0));
    assert_eq!(mul_div(7, 0, 3), Ok(0));
    assert_eq!(mul_div(u64::MAX, u64::MAX, u64::MAX), Ok(u64::MAX));
    assert_eq!(mul_div(u64::MAX, 1_000_000, 2_000_000), Ok(u64::MAX / 2));
}

#[test]
fn mul_div_tells_a_zero_divisor_from_an_overflow() {
    assert_eq!(mul_div(1, 1, 0), Err(ErrorCode::InvalidMarketState));
    assert_eq!(mul_div(0, 0, 0), Err(ErrorCode::InvalidMarketState));
    assert_eq!(mul_div(u64::MAX, u64::MAX, 0), Err(ErrorCode::InvalidMarketState));
    assert_eq!(mul_div(u64::MAX, 2, 1), Err(ErrorCode::ArithmeticOverflow));
    assert_eq!(mul_div(1 << 32, 1 << 32, 1), Err(ErrorCode::ArithmeticOverflow));
    assert_eq!(mul_div(1 << 32, 1 << 32, 2), Ok(1 << 63));
}

#[test]
fn identities_compare_by_their_bytes() {
    let a = Identity::new([7; 32]);
    let mut bytes = [7u8; 32];
    let b = Identity::new(bytes);
    bytes[31] = 8;
    let c = Identity::new(bytes);
    bytes[31] = 7;
    bytes[0] = 0;
    let d = Identity::new(bytes);
    assert!(a.same_as(&b));
    assert!(!a.same_as(&c));
    assert!(!c.same_as(&a));
    assert!(!a.same_as(&d));
    assert_eq!(a.bytes, [7; 32]);
    assert_eq!(a, b);
}
