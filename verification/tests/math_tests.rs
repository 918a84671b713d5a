use pump_core::math::{checked_add, checked_sub, mul_div, sqrt_u64, MathError, SCALE};

#[test]
fn mul_div_exact_quotient() {
    assert_eq!(mul_div(7, 9, 3), Ok(21));
    assert_eq!(mul_div(10, 10, 3), Ok(33));
    assert_eq!(mul_div(0, u64::MAX, 5), Ok(0));
}

#[test]
fn mul_div_zero_divisor_always_fails() {
    assert_eq!(mul_div(1, 1, 0), Err(MathError::DivisionByZero));
    assert_eq!(mul_div(0, 0, 0), Err(MathError::DivisionByZero));
    assert_eq!(mul_div(u64::MAX, u64::MAX, 0), Err(MathError::DivisionByZero));
}

#[test]
fn mul_div_max_operands_never_wrap() {
    // The full product exceeds 64 bits: dividing by 1 must fail loudly...
    assert_eq!(mul_div(u64::MAX, u64::MAX, 1), Err(MathError::Overflow));
    // ...while dividing by one factor widens correctly and returns the other.
    assert_eq!(mul_div(u64::MAX, u64::MAX, u64::MAX), Ok(u64::MAX));
    assert_eq!(mul_div(u64::MAX, 2, 2), Ok(u64::MAX));
}

#[test]
fn checked_add_and_sub_report_range() {
    assert_eq!(checked_add(2, 3), Ok(5));
    assert_eq!(checked_add(u64::MAX, 1), Err(MathError::Overflow));
    assert_eq!(checked_add(u64::MAX, 0), Ok(u64::MAX));
    assert_eq!(checked_sub(5, 3), Ok(2));
    assert_eq!(checked_sub(3, 5), Err(MathError::Overflow));
}

#[test]
fn sqrt_small_values() {
    assert_eq!(sqrt_u64(0), 0);
    assert_eq!(sqrt_u64(1), 1);
    assert_eq!(sqrt_u64(2), 1);
    assert_eq!(sqrt_u64(3), 1);
    assert_eq!(sqrt_u64(4), 2);
    assert_eq!(sqrt_u64(9), 3);
    assert_eq!(sqrt_u64(15), 3);
    assert_eq!(sqrt_u64(16), 4);
    assert_eq!(sqrt_u64(24), 4);
    assert_eq!(sqrt_u64(25), 5);
}

#[test]
fn sqrt_large_values() {
    assert_eq!(sqrt_u64(SCALE * SCALE), SCALE);
    assert_eq!(sqrt_u64(u64::MAX), 4_294_967_295);
    let r = sqrt_u64(123_456_789_987_654_321);
    assert!(r * r <= 123_456_789_987_654_321);
    assert!((r + 1).checked_mul(r + 1).map_or(true, |sq| sq > 123_456_789_987_654_321));
}
