use pump_core::fees::{fee_amount, split_fee, FeeError};

#[test]
fn split_fee_one_percent_each() {
    // 1% creator + 1% platform on 1_000_000.
    assert_eq!(split_fee(1_000_000, 100, 100), Ok((10_000, 10_000, 980_000)));
}

#[test]
fn split_fee_zero_rate_is_zero_fee() {
    assert_eq!(split_fee(1_000_000, 0, 0), Ok((0, 0, 1_000_000)));
    assert_eq!(split_fee(1_000_000, 0, 250), Ok((0, 25_000, 975_000)));
}

#[test]
fn split_fee_floors_and_never_exceeds_gross() {
    // 1% of 99 floors to 0.
    assert_eq!(split_fee(99, 100, 100), Ok((0, 0, 99)));
    // 100% combined: everything is fee, net zero, no underflow.
    assert_eq!(split_fee(1_000_001, 5_000, 5_000), Ok((500_000, 500_000, 1)));
    assert_eq!(split_fee(u64::MAX, 5_000, 5_000), Ok((u64::MAX / 2, u64::MAX / 2, 1)));
}

#[test]
fn split_fee_rejects_combined_rate_over_one_hundred_percent() {
    assert_eq!(split_fee(1_000_000, 5_001, 5_000), Err(FeeError::InvalidAmount));
    assert_eq!(split_fee(0, u16::MAX, u16::MAX), Err(FeeError::InvalidAmount));
}

#[test]
fn fee_amount_exact() {
    assert_eq!(fee_amount(1_000_000, 100), 10_000);
    assert_eq!(fee_amount(1_000_000, 0), 0);
    assert_eq!(fee_amount(12_345, 33), 40);
    assert_eq!(fee_amount(u64::MAX, 10_000), u64::MAX);
}
