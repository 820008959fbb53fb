//! The mandelbulb distance estimator: a fixed thirty-two iteration
//! escape-time loop. An iterate past the bailout radius is left unchanged
//! for the remaining iterations rather than breaking out of the loop; the
//! polar angle comes from a single-argument arctangent of `y / x`, which
//! loses the quadrant; and the spherical reconstruction deliberately
//! follows the stylized, asymmetric form
//! `(cos t cos p r, sin t cos p, sin p)`. All three choices visibly shape
//! the rendered fractal and are kept as they are.

use vstd::prelude::*;

use crate::fx::FX_ONE;
use crate::fx::fx_scale;
use crate::fx::spec_fx_mul;
use crate::fx::spec_fx_div;
use crate::fx::spec_sat_add;
use crate::fx::spec_sat_sub;
use crate::fx::fx_mul;
use crate::fx::fx_div;
use crate::fx::sat_add;
use crate::fx::sat_sub;
use crate::math::spec_sin_fx;
use crate::math::spec_cos_fx;
use crate::math::spec_atan_fx;
use crate::math::spec_asin_fx;
use crate::math::spec_ln_fx;
use crate::math::spec_pow_fx;
use crate::math::sin_fx;
use crate::math::cos_fx;
use crate::math::atan_fx;
use crate::math::asin_fx;
use crate::math::ln_fx;
use crate::math::pow_fx;
use crate::vec3::Vec3;
use crate::vec3::V3i;
use crate::vec3::v3_len;
use crate::vec3::vec3;
use crate::vec3::length3;

verus! {

/// The lower bound `0.001` every distance estimate is clamped to.
pub const FX_DIST_FLOOR: i64 = 4294967;

/// One quarter in Q31.32.
pub const FX_QUARTER: i64 = 0x4000_0000;

/// The escape radius `2`.
pub const FX_BAILOUT: i64 = 2 * 0x1_0000_0000;

/// The `(z, dr, r)` state of the escape-time iteration after `n` steps
/// from the sample point `p`.
pub open spec fn bulb_state(p: V3i, power: int, phase: int, n: nat) -> (V3i, int, int)
    decreases n,
{
    if n == 0 {
        (p, fx_scale(), 0)
    } else {
        let s = bulb_state(p, power, phase, (n - 1) as nat);
        let z = s.0;
        let dr = s.1;
        let r = v3_len(z);
        if r > FX_BAILOUT {
            (z, dr, r)
        } else {
            let theta = spec_atan_fx(spec_fx_div(z.y, z.x));
            let phi = spec_sat_add(spec_asin_fx(spec_fx_div(z.z, r)), phase);
            let dr2 = spec_sat_add(
                spec_fx_mul(
                    spec_fx_mul(spec_pow_fx(r, spec_sat_sub(power, fx_scale())), dr),
                    power,
                ),
                fx_scale(),
            );
            let r2 = spec_pow_fx(r, power);
            let theta2 = spec_fx_mul(theta, power);
            let phi2 = spec_fx_mul(phi, power);
            let z2 = V3i {
                x: spec_fx_mul(spec_fx_mul(spec_cos_fx(theta2), spec_cos_fx(phi2)), r2),
                y: spec_fx_mul(spec_sin_fx(theta2), spec_cos_fx(phi2)),
                z: spec_sin_fx(phi2),
            };
            (z2, dr2, r2)
        }
    }
}

/// The distance estimate: `max(0.001, 0.25 ln(r) r / dr)` over the final
/// iteration state.
pub open spec fn spec_mandelbulb(p: V3i, power: int, phase: int) -> int {
    let s = bulb_state(p, power, phase, 32);
    let v = spec_fx_div(
        spec_fx_mul(spec_fx_mul(FX_QUARTER as int, spec_ln_fx(s.2)), s.2),
        s.1,
    );
    if v < FX_DIST_FLOOR {
        FX_DIST_FLOOR as int
    } else {
        v
    }
}

/// The approximate signed distance from `p` to the mandelbulb surface of
/// the given power and phase; always at least `0.001`.
pub fn mandelbulb(p: &Vec3, power: i64, phase: i64) -> (res: i64)
    ensures
        res as int == spec_mandelbulb(p@, power as int, phase as int),
        res >= FX_DIST_FLOOR,
{
    let mut z: Vec3 = *p;
    let mut dr: i64 = FX_ONE;
    let mut r: i64 = 0;
    let mut i: u64 = 0;
    while i < 32
        invariant
            i <= 32,
            (z@, dr as int, r as int) == bulb_state(p@, power as int, phase as int, i as nat),
        decreases 32 - i,
    {
        r = length3(&z);
        if r > FX_BAILOUT {
        } else {
            let theta = atan_fx(fx_div(z.y, z.x));
            let phi = sat_add(asin_fx(fx_div(z.z, r)), phase);
            dr = sat_add(fx_mul(fx_mul(pow_fx(r, sat_sub(power, FX_ONE)), dr), power), FX_ONE);
            let theta2 = fx_mul(theta, power);
            let phi2 = fx_mul(phi, power);
            r = pow_fx(r, power);
            z = vec3(
                fx_mul(fx_mul(cos_fx(theta2), cos_fx(phi2)), r),
                fx_mul(sin_fx(theta2), cos_fx(phi2)),
                sin_fx(phi2),
            );
        }
        i = i + 1;
    }
    let v = fx_div(fx_mul(fx_mul(FX_QUARTER, ln_fx(r)), r), dr);
    if v < FX_DIST_FLOOR {
        FX_DIST_FLOOR
    } else {
        v
    }
}

} // verus!
