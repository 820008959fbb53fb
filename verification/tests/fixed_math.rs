//! Exact and approximate checks of the fixed-point numeric kernels.

use raymarch_core::fx::{fx_div, fx_mul, sat_add, sat_sub};
use raymarch_core::math::{
    asin_fx, atan_fx, cos_fx, exp_fx, isqrt, ln_fx, pow_fx, sin_fx, sqrt_fx, tan_fx, FX_HALF_PI,
    FX_LN2, FX_PI,
};
use raymarch_core::vec3::{cross3, length3, mix3, normalize3, vec3};
use raymarch_core::FX_ONE;

const S: f64 = 4294967296.0;

fn close(got: i64, real: f64, tol: f64) -> bool {
    ((got as f64) - real * S).abs() <= tol * S
}

#[test]
fn fx_mul_truncates_toward_zero() {
    assert_eq!(fx_mul(3 * FX_ONE, 2 * FX_ONE), 6 * FX_ONE);
    assert_eq!(fx_mul(-3 * FX_ONE, 2 * FX_ONE), -6 * FX_ONE);
    assert_eq!(fx_mul(1, 1), 0);
    assert_eq!(fx_mul(-1, 1), 0);
}

#[test]
fn fx_mul_saturates() {
    assert_eq!(fx_mul(i64::MAX, i64::MAX), i64::MAX);
    assert_eq!(fx_mul(i64::MIN, i64::MAX), i64::MIN);
}

#[test]
fn fx_div_is_total() {
    assert_eq!(fx_div(5 * FX_ONE, 0), 0);
    assert_eq!(fx_div(6 * FX_ONE, 2 * FX_ONE), 3 * FX_ONE);
    assert_eq!(fx_div(-6 * FX_ONE, 2 * FX_ONE), -3 * FX_ONE);
    assert_eq!(fx_div(FX_ONE, 3 * FX_ONE), FX_ONE / 3);
}

#[test]
fn saturating_add_sub() {
    assert_eq!(sat_add(i64::MAX, 1), i64::MAX);
    assert_eq!(sat_sub(i64::MIN, 1), i64::MIN);
    assert_eq!(sat_add(1, 2), 3);
    assert_eq!(sat_sub(1, 2), -1);
}

#[test]
fn integer_square_root_is_the_floor() {
    assert_eq!(isqrt(0), 0);
    assert_eq!(isqrt(1), 1);
    assert_eq!(isqrt(3), 1);
    assert_eq!(isqrt(4), 2);
    assert_eq!(isqrt(u64::MAX as u128), 4294967295);
    assert_eq!(isqrt(u128::MAX), (1u128 << 64) - 1);
}

#[test]
fn sqrt_fx_of_four_is_two() {
    assert_eq!(sqrt_fx(4 * FX_ONE), 2 * FX_ONE);
    assert_eq!(sqrt_fx(0), 0);
    assert_eq!(sqrt_fx(-FX_ONE), 0);
    assert!(close(sqrt_fx(2 * FX_ONE), 2f64.sqrt(), 1e-6));
}

#[test]
fn trig_known_values() {
    assert_eq!(sin_fx(0), 0);
    assert_eq!(atan_fx(0), 0);
    assert_eq!(asin_fx(0), 0);
    assert_eq!(asin_fx(FX_ONE), FX_HALF_PI);
    assert_eq!(asin_fx(-FX_ONE), -FX_HALF_PI);
    assert!(close(cos_fx(0), 1.0, 1e-5));
    assert!(close(sin_fx(FX_HALF_PI), 1.0, 1e-5));
    assert!(close(cos_fx(FX_PI), -1.0, 1e-5));
    assert!(close(sin_fx(FX_PI / 6), 0.5, 1e-5));
    assert!(close(tan_fx(FX_HALF_PI / 2), 1.0, 1e-4));
    assert!(close(atan_fx(FX_ONE), std::f64::consts::FRAC_PI_4, 1e-5));
    assert!(close(asin_fx(FX_ONE / 2), std::f64::consts::FRAC_PI_6, 1e-4));
}

#[test]
fn trig_reduces_large_angles() {
    assert!(close(sin_fx(FX_PI * 2 + FX_HALF_PI), 1.0, 1e-4));
    assert!(close(sin_fx(-FX_HALF_PI), -1.0, 1e-5));
    assert!(close(cos_fx(-FX_PI * 4), 1.0, 1e-4));
}

#[test]
fn exp_known_values() {
    assert_eq!(exp_fx(0), FX_ONE);
    assert!(close(exp_fx(FX_ONE), std::f64::consts::E, 1e-5));
    assert!(close(exp_fx(-FX_ONE), 1.0 / std::f64::consts::E, 1e-5));
    assert!(close(exp_fx(FX_LN2), 2.0, 1e-5));
    // The argument clamp bottoms out at e^-21, a few fixed-point units.
    let tiny = exp_fx(i64::MIN);
    assert!(tiny >= 0 && tiny <= 4);
}

#[test]
fn ln_known_values() {
    assert_eq!(ln_fx(FX_ONE), 0);
    assert_eq!(ln_fx(2 * FX_ONE), FX_LN2);
    assert_eq!(ln_fx(0), 0);
    assert_eq!(ln_fx(-5), 0);
    assert!(close(ln_fx(10 * FX_ONE), 10f64.ln(), 1e-5));
    assert!(close(ln_fx(FX_ONE / 8), -3.0 * 2f64.ln(), 1e-5));
}

#[test]
fn pow_known_values() {
    assert!(close(pow_fx(2 * FX_ONE, 2 * FX_ONE), 4.0, 1e-4));
    assert!(close(pow_fx(3 * FX_ONE, 3 * FX_ONE), 27.0, 1e-3));
    assert!(close(pow_fx(4 * FX_ONE, FX_ONE / 2), 2.0, 1e-4));
    assert_eq!(pow_fx(0, 4 * FX_ONE), 0);
    assert_eq!(pow_fx(-FX_ONE, 4 * FX_ONE), 0);
}

#[test]
fn exp_and_ln_round_trip() {
    for v in [FX_ONE / 7, FX_ONE, 3 * FX_ONE, 11 * FX_ONE / 2] {
        let there_and_back = ln_fx(exp_fx(v));
        assert!(
            (there_and_back - v).abs() < FX_ONE / 10_000,
            "v={v} round trip={there_and_back}"
        );
    }
}

#[test]
fn normalizing_the_zero_vector_stays_zero() {
    let z = vec3(0, 0, 0);
    assert_eq!(length3(&z), 0);
    assert_eq!(normalize3(&z), z);
}

#[test]
fn normalize_gives_a_unit_vector() {
    let v = normalize3(&vec3(3 * FX_ONE, -4 * FX_ONE, 12 * FX_ONE));
    let l = length3(&v);
    assert!((l - FX_ONE).abs() <= 8, "length {l}");
}

#[test]
fn mix_hits_its_endpoints_exactly() {
    let a = vec3(FX_ONE, 2 * FX_ONE, -3 * FX_ONE);
    let b = vec3(-5 * FX_ONE, 0, 7 * FX_ONE);
    assert_eq!(mix3(&a, &b, 0), a);
    assert_eq!(mix3(&a, &b, FX_ONE), b);
    assert_eq!(mix3(&a, &b, FX_ONE / 2), vec3(-2 * FX_ONE, FX_ONE, 2 * FX_ONE));
}

#[test]
fn cross_product_of_axes() {
    let x = vec3(FX_ONE, 0, 0);
    let y = vec3(0, FX_ONE, 0);
    assert_eq!(cross3(&x, &y), vec3(0, 0, FX_ONE));
    assert_eq!(cross3(&y, &x), vec3(0, 0, -FX_ONE));
}
