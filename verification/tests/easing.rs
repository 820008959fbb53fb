//! The easing curve: bounds, endpoints, monotonicity, and the degenerate
//! window.

use raymarch_core::camera::easing;
use raymarch_core::FX_ONE;

#[test]
fn ease_endpoints_are_exact() {
    assert_eq!(easing(100, 100, 1100), 0);
    assert_eq!(easing(1100, 100, 1100), FX_ONE);
}

#[test]
fn ease_midpoint_is_exactly_half() {
    // u = 1/2, and 3 u^2 - 2 u^3 = 1/2 exactly.
    assert_eq!(easing(5, 0, 10), FX_ONE / 2);
}

#[test]
fn ease_quarter_point_value() {
    // u = 1/4: 3/16 - 2/64 = 5/32.
    assert_eq!(easing(25, 0, 100), 5 * FX_ONE / 32);
}

#[test]
fn ease_is_clamped_outside_the_window() {
    assert_eq!(easing(0, 100, 1100), 0);
    assert_eq!(easing(99, 100, 1100), 0);
    assert_eq!(easing(1101, 100, 1100), FX_ONE);
    assert_eq!(easing(u64::MAX, 100, 1100), FX_ONE);
}

#[test]
fn ease_is_monotone_and_within_unit_interval() {
    let mut prev = -1i64;
    for t in 0..=200u64 {
        let v = easing(t, 50, 150);
        assert!(v >= 0 && v <= FX_ONE);
        assert!(v >= prev);
        prev = v;
    }
}

#[test]
fn ease_empty_window_jumps_to_one_at_the_end() {
    // a == b: an instantaneous transition, not a division by zero.
    assert_eq!(easing(41, 42, 42), 0);
    assert_eq!(easing(42, 42, 42), FX_ONE);
    assert_eq!(easing(43, 42, 42), FX_ONE);
}

#[test]
fn ease_backward_window_acts_as_instantaneous() {
    assert_eq!(easing(5, 100, 10), 0);
    assert_eq!(easing(10, 100, 10), FX_ONE);
    assert_eq!(easing(1000, 100, 10), FX_ONE);
}

#[test]
fn ease_matches_smoothstep_against_floats() {
    for (t, a, b) in [(7u64, 0u64, 29u64), (123, 100, 400), (999, 0, 1000)] {
        let u = (t - a) as f64 / (b - a) as f64;
        let expected = (3.0 * u * u - 2.0 * u * u * u) * 4294967296.0;
        let got = easing(t, a, b) as f64;
        assert!((got - expected).abs() < 16.0, "t={t} got={got} expected={expected}");
    }
}
