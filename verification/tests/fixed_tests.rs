//! The fixed-point scalar kernel: saturating products and quotients, the
//! integer square root, and the sine/cosine approximation.

use ray_marcher::fixed::{fp_cos, fp_div, fp_mul, fp_sin, isqrt_u128, sat_add64, sat_sub64};
use ray_marcher::fixed::{HALF_PI_FIXED, PI_FIXED, TWO_PI_FIXED};
use ray_marcher::SCALE;

#[test]
fn test_fp_mul_exact() {
    assert_eq!(fp_mul(3 * SCALE, SCALE / 2), 3 * SCALE / 2);
    assert_eq!(fp_mul(-3 * SCALE, SCALE / 2), -(3 * SCALE / 2));
    assert_eq!(fp_mul(SCALE, SCALE), SCALE);
    assert_eq!(fp_mul(7, 0), 0);
}

#[test]
fn test_fp_mul_saturates() {
    assert_eq!(fp_mul(i64::MAX, 2 * SCALE), i64::MAX);
    assert_eq!(fp_mul(i64::MAX, -2 * SCALE), i64::MIN);
}

#[test]
fn test_fp_div_exact() {
    assert_eq!(fp_div(SCALE, 2 * SCALE), SCALE / 2);
    assert_eq!(fp_div(-SCALE, 2 * SCALE), -SCALE / 2);
    assert_eq!(fp_div(SCALE, -2 * SCALE), -SCALE / 2);
    assert_eq!(fp_div(0, 17), 0);
}

#[test]
fn test_isqrt_values() {
    assert_eq!(isqrt_u128(0), 0);
    assert_eq!(isqrt_u128(1), 1);
    assert_eq!(isqrt_u128(2), 1);
    assert_eq!(isqrt_u128(1_000_000_000_000_000_000), 1_000_000_000);
    assert_eq!(isqrt_u128(2_000_000_000_000_000_000), 1_414_213_562);
    assert_eq!(isqrt_u128(u128::MAX), 0xffffffffffffffff);
}

#[test]
fn test_sat_add_sub() {
    assert_eq!(sat_add64(i64::MAX, 1), i64::MAX);
    assert_eq!(sat_sub64(i64::MIN, 1), i64::MIN);
    assert_eq!(sat_add64(40, 2), 42);
    assert_eq!(sat_sub64(40, 2), 38);
}

#[test]
fn test_sin_cos_zero() {
    assert_eq!(fp_sin(0), 0);
    assert_eq!(fp_cos(0), SCALE);
}

#[test]
fn test_sin_cos_quarter_turn() {
    assert!((fp_sin(HALF_PI_FIXED) - SCALE).abs() < 1_000);
    assert!(fp_cos(HALF_PI_FIXED).abs() < 1_000);
}

#[test]
fn test_sin_half_turn_and_reduction() {
    assert!(fp_sin(PI_FIXED).abs() < 1_000);
    assert!((fp_cos(PI_FIXED) + SCALE).abs() < 1_000);
    // A full extra turn reduces away.
    assert!((fp_sin(TWO_PI_FIXED + HALF_PI_FIXED) - fp_sin(HALF_PI_FIXED)).abs() < 10);
}

#[test]
fn test_sin_is_odd() {
    let a: i64 = 523_598_776;
    assert!((fp_sin(a) + fp_sin(-a)).abs() < 10);
    assert!((fp_sin(a) - 500_000_000).abs() < 1_000);
}
