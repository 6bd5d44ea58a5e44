//! Fixed-point arithmetic: exact values, truncation direction,
//! saturation at the representable range, and the square root.

use vroom::fp::{fp_abs, fp_add, fp_div, fp_mul, fp_neg, fp_sqrt, fp_sub, FP_MAX, FP_MIN, SCALE};

#[test]
fn add_and_sub_exact() {
    assert_eq!(fp_add(1_500_000, 2_500_000), 4_000_000);
    assert_eq!(fp_sub(1_500_000, 2_500_000), -1_000_000);
}

#[test]
fn add_saturates_at_max() {
    assert_eq!(fp_add(FP_MAX, 1), FP_MAX);
    assert_eq!(fp_add(FP_MAX, FP_MAX), FP_MAX);
}

#[test]
fn sub_saturates_at_min() {
    assert_eq!(fp_sub(FP_MIN, 1), FP_MIN);
}

#[test]
fn mul_exact() {
    // 0.01 * 0.01 = 0.0001
    assert_eq!(fp_mul(10_000, 10_000), 100);
    // 2 * 3 = 6
    assert_eq!(fp_mul(2 * SCALE, 3 * SCALE), 6 * SCALE);
}

#[test]
fn mul_truncates_toward_zero() {
    // -3.000001 * 0.5 = -1.5000005, truncated toward zero
    assert_eq!(fp_mul(-3_000_001, 500_000), -1_500_000);
    assert_eq!(fp_mul(3_000_001, 500_000), 1_500_000);
}

#[test]
fn div_exact_and_symmetric() {
    assert_eq!(fp_div(7, 2), 3_500_000);
    assert_eq!(fp_div(-7, 2), -3_500_000);
    assert_eq!(fp_div(7, -2), -3_500_000);
}

#[test]
fn div_by_zero_saturates() {
    assert_eq!(fp_div(1, 0), FP_MAX);
    assert_eq!(fp_div(-1, 0), FP_MIN);
    assert_eq!(fp_div(0, 0), FP_MAX);
}

#[test]
fn neg_and_abs_saturate_at_min() {
    assert_eq!(fp_neg(FP_MIN), FP_MAX);
    assert_eq!(fp_abs(FP_MIN), FP_MAX);
    assert_eq!(fp_neg(5), -5);
    assert_eq!(fp_abs(-5), 5);
}

#[test]
fn sqrt_exact_squares() {
    assert_eq!(fp_sqrt(4 * SCALE), 2 * SCALE);
    assert_eq!(fp_sqrt(SCALE), SCALE);
    assert_eq!(fp_sqrt(0), 0);
}

#[test]
fn sqrt_rounds_down() {
    assert_eq!(fp_sqrt(2 * SCALE), 1_414_213);
    assert_eq!(fp_sqrt(500_000), 707_106);
}

#[test]
fn sqrt_of_negative_is_zero() {
    assert_eq!(fp_sqrt(-SCALE), 0);
}
