use sxlm_vault::amount::{
    checked_mul_div, saturating_reduce, DEFAULT_MAX_DEPOSIT, MIN_AMOUNT, PRECISION,
};
use sxlm_vault::error::Error;

#[test]
fn test_precision_constant() {
    // Seven decimals: 1.0 is 10_000_000.
    assert_eq!(PRECISION, 1_0000000);
}

#[test]
fn minimum_is_a_tenth_of_a_unit() {
    assert_eq!(MIN_AMOUNT, 1_000_000);
    assert_eq!(MIN_AMOUNT * 10, PRECISION);
}

#[test]
fn default_max_deposit_is_a_million_units() {
    assert_eq!(DEFAULT_MAX_DEPOSIT, 1_000_000_0000000);
    assert_eq!(DEFAULT_MAX_DEPOSIT, 1_000_000 * PRECISION);
}

#[test]
fn a_scaled_quotient_rounds_toward_zero() {
    assert_eq!(checked_mul_div(7, 3, 2), Ok(10));
    assert_eq!(checked_mul_div(-7, 3, 2), Ok(-10));
    assert_eq!(checked_mul_div(7, -3, 2), Ok(-10));
    assert_eq!(checked_mul_div(-7, -3, 2), Ok(10));
    assert_eq!(checked_mul_div(0, 5, 3), Ok(0));
    assert_eq!(checked_mul_div(1, 1, 2), Ok(0));
    assert_eq!(checked_mul_div(-1, 1, 2), Ok(0));
    assert_eq!(checked_mul_div(1_100 * PRECISION, PRECISION, 11_000_000), Ok(1_000 * PRECISION));
}

#[test]
fn a_scaled_quotient_fails_on_overflow_and_on_zero() {
    assert_eq!(checked_mul_div(i128::MAX, 2, 4), Err(Error::Overflow));
    assert_eq!(checked_mul_div(i128::MIN, 2, 4), Err(Error::Overflow));
    assert_eq!(checked_mul_div(i128::MIN, -1, 1), Err(Error::Overflow));
    assert_eq!(checked_mul_div(i128::MAX, 1, 1), Ok(i128::MAX));
    assert_eq!(checked_mul_div(i128::MIN, 1, 1), Ok(i128::MIN));
    assert_eq!(checked_mul_div(5, 5, 0), Err(Error::DivisionError));
    assert_eq!(checked_mul_div(0, 0, 0), Err(Error::DivisionError));
    // The product is looked at first.
    assert_eq!(checked_mul_div(i128::MAX, 2, 0), Err(Error::Overflow));
}

#[test]
fn a_reduction_stops_at_zero() {
    assert_eq!(saturating_reduce(10, 3), 7);
    assert_eq!(saturating_reduce(10, 10), 0);
    assert_eq!(saturating_reduce(10, 11), 0);
    assert_eq!(saturating_reduce(0, i128::MAX), 0);
    assert_eq!(saturating_reduce(i128::MAX, 0), i128::MAX);
}
