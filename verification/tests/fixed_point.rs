//! Tests of the saturating fixed-point scalar operations.

use gravity_sim::fixed::{fp_div, fp_mul, sat_add, sat_sub, SCALE};

#[test]
fn products_rescale() {
    assert_eq!(fp_mul(3 * SCALE, 2 * SCALE), 6 * SCALE);
    assert_eq!(fp_mul(-3 * SCALE, 2 * SCALE), -6 * SCALE);
    assert_eq!(fp_mul(-3 * SCALE, -2 * SCALE), 6 * SCALE);
    assert_eq!(fp_mul(SCALE / 2, SCALE / 2), SCALE / 4);
    assert_eq!(fp_mul(12345, 0), 0);
    assert_eq!(fp_mul(0, -12345), 0);
}

#[test]
fn products_round_toward_zero() {
    assert_eq!(fp_mul(1, 1), 0);
    assert_eq!(fp_mul(-1, 1), 0);
    assert_eq!(fp_mul(SCALE - 1, SCALE - 1), SCALE - 2);
}

#[test]
fn products_saturate() {
    assert_eq!(fp_mul(i64::MAX, i64::MAX), i64::MAX);
    assert_eq!(fp_mul(i64::MAX, -i64::MAX), i64::MIN);
    assert_eq!(fp_mul(i64::MIN, i64::MIN), i64::MAX);
}

#[test]
fn quotients_rescale_and_round_toward_zero() {
    assert_eq!(fp_div(SCALE, 2 * SCALE), SCALE / 2);
    assert_eq!(fp_div(1, 3), 333_333_333);
    assert_eq!(fp_div(-1, 3), -333_333_333);
    assert_eq!(fp_div(7 * SCALE, 2 * SCALE), 3 * SCALE + SCALE / 2);
    assert_eq!(fp_div(0, 5), 0);
}

#[test]
fn quotients_saturate() {
    assert_eq!(fp_div(i64::MAX, 1), i64::MAX);
    assert_eq!(fp_div(i64::MIN, 1), i64::MIN);
}

#[test]
fn sums_and_differences_saturate() {
    assert_eq!(sat_add(1, 2), 3);
    assert_eq!(sat_add(i64::MAX, 1), i64::MAX);
    assert_eq!(sat_add(i64::MIN, -1), i64::MIN);
    assert_eq!(sat_sub(5, 9), -4);
    assert_eq!(sat_sub(i64::MIN, 1), i64::MIN);
    assert_eq!(sat_sub(i64::MAX, -1), i64::MAX);
    assert_eq!(sat_sub(0, i64::MIN), i64::MAX);
}
