//! Fixed-point scalar arithmetic: exact values and saturation behavior.

use raytracer::fixed::{
    fx_abs, fx_add, fx_clamp, fx_div, fx_from_int, fx_max, fx_min, fx_mul, fx_neg, fx_powi,
    fx_sqrt, fx_sub, fx_trunc, FX_ONE,
};

#[test]
fn addition_is_exact_in_range() {
    assert_eq!(fx_add(65536, 65536), 131072);
    assert_eq!(fx_add(-65536, 65536), 0);
}

#[test]
fn addition_saturates_at_the_extremes() {
    assert_eq!(fx_add(i64::MAX, 1), i64::MAX);
    assert_eq!(fx_add(i64::MIN, -1), i64::MIN);
}

#[test]
fn multiplication_rescales() {
    // 2.0 * 3.0 == 6.0
    assert_eq!(fx_mul(131072, 196608), 393216);
    // 0.5 * 0.5 == 0.25
    assert_eq!(fx_mul(32768, 32768), 16384);
    // signs
    assert_eq!(fx_mul(-131072, 196608), -393216);
}

#[test]
fn multiplication_truncates_toward_zero() {
    // (1/65536) * (1/65536) is far below one ulp: truncates to zero,
    // from both sides.
    assert_eq!(fx_mul(1, 1), 0);
    assert_eq!(fx_mul(-1, 1), 0);
}

#[test]
fn division_is_exact_on_divisible_values() {
    // 6.0 / 3.0 == 2.0
    assert_eq!(fx_div(393216, 196608), 131072);
    // 1.0 / 2.0 == 0.5
    assert_eq!(fx_div(65536, 131072), 32768);
}

#[test]
fn division_by_zero_saturates_by_sign() {
    assert_eq!(fx_div(65536, 0), i64::MAX);
    assert_eq!(fx_div(-65536, 0), i64::MIN);
    assert_eq!(fx_div(0, 0), 0);
}

#[test]
fn square_root_exact_on_squares() {
    // sqrt(4.0) == 2.0
    assert_eq!(fx_sqrt(262144), 131072);
    // sqrt(1.0) == 1.0
    assert_eq!(fx_sqrt(65536), 65536);
    // sqrt of a negative is the documented fallback zero
    assert_eq!(fx_sqrt(-65536), 0);
}

#[test]
fn square_root_rounds_down() {
    // sqrt(2.0) = 1.41421356...; scaled: floor(sqrt(2) * 65536) = 92681
    assert_eq!(fx_sqrt(131072), 92681);
}

#[test]
fn power_with_whole_exponent() {
    // 2.0^10 == 1024.0
    assert_eq!(fx_powi(131072, 10), 1024 * 65536);
    // x^0 == 1.0
    assert_eq!(fx_powi(-131072, 0), FX_ONE);
}

#[test]
fn helpers_behave() {
    assert_eq!(fx_neg(5), -5);
    assert_eq!(fx_neg(i64::MIN), i64::MAX);
    assert_eq!(fx_abs(-7), 7);
    assert_eq!(fx_min(3, 4), 3);
    assert_eq!(fx_max(3, 4), 4);
    assert_eq!(fx_clamp(10, 0, 5), 5);
    assert_eq!(fx_clamp(-1, 0, 5), 0);
    assert_eq!(fx_from_int(3), 196608);
    assert_eq!(fx_trunc(limit_case()), 1);
    assert_eq!(fx_trunc(-98304), -1);
}

fn limit_case() -> i64 {
    98304 // 1.5 in fixed point
}
