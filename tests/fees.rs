use umbra_swap::errors::{DarkFlowError, UmbraError};
use umbra_swap::fees::{apply_fee, constant_product_output};

#[test]
fn apply_fee_splits_amount_exactly() {
    assert_eq!(apply_fee(2000, 50), Ok((1990, 10)));
    assert_eq!(apply_fee(2000, 30), Ok((1994, 6)));
    assert_eq!(apply_fee(1999, 5), Ok((1999, 0)));
    assert_eq!(apply_fee(0, 500), Ok((0, 0)));
    assert_eq!(apply_fee(10_000, 500), Ok((9_500, 500)));
}

#[test]
fn apply_fee_floors_the_fee() {
    // 12345 * 15 / 10000 = 18.5175
    assert_eq!(apply_fee(12345, 15), Ok((12327, 18)));
}

#[test]
fn apply_fee_widens_before_multiplying() {
    let (net, fee) = apply_fee(u64::MAX, 500).unwrap();
    assert_eq!(fee, ((u64::MAX as u128) * 500 / 10000) as u64);
    assert_eq!(net + fee, u64::MAX);
}

#[test]
fn apply_fee_rejects_rates_above_whole() {
    assert_eq!(apply_fee(100, 20000), Err(UmbraError::ArithmeticOverflow));
    assert_eq!(apply_fee(0, 20000), Ok((0, 0)));
}

#[test]
fn constant_product_matches_closed_form() {
    // 10000 * 100 * 9970 / (10000 * 10000 + 100 * 9970) = 98.71...
    assert_eq!(constant_product_output(100, 10000, 10000, 30), Ok(98));
    let f: u128 = 10000 - 30;
    let expected = (10000u128 * 100 * f) / (10000u128 * 10000 + 100 * f);
    assert_eq!(constant_product_output(100, 10000, 10000, 30), Ok(expected as u64));
}

#[test]
fn constant_product_without_fee() {
    // 500 * 100 * 10000 / (1000 * 10000 + 100 * 10000) = 45.45...
    assert_eq!(constant_product_output(100, 1000, 500, 0), Ok(45));
}

#[test]
fn constant_product_empty_pool_is_overflow() {
    assert_eq!(constant_product_output(0, 0, 1000, 30), Err(DarkFlowError::MathOverflow));
    assert_eq!(constant_product_output(100, 0, 0, 10000), Err(DarkFlowError::MathOverflow));
}

#[test]
fn constant_product_numerator_overflow() {
    assert_eq!(
        constant_product_output(u64::MAX, 1, u64::MAX, 0),
        Err(DarkFlowError::MathOverflow)
    );
}

#[test]
fn constant_product_never_exceeds_reserve() {
    assert_eq!(constant_product_output(1000, 0, 777, 30), Ok(777));
    let out = constant_product_output(u64::MAX / 20000, 1, u64::MAX / 20000, 0).unwrap();
    assert!(out <= u64::MAX / 20000);
}
