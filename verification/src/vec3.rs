//! Three-component vectors of Q31.32 fixed-point scalars, with the
//! componentwise saturating algebra the camera and the distance estimator
//! are specified over. The mathematical model of a vector is `V3i`, a
//! triple of unbounded integers.

use vstd::prelude::*;

use crate::fx::FX_ONE;
use crate::fx::fx_scale;
use crate::fx::sat64;
use crate::fx::spec_fx_mul;
use crate::fx::spec_fx_div;
use crate::fx::spec_sat_add;
use crate::fx::spec_sat_sub;
use crate::fx::fx_mul;
use crate::fx::fx_div;
use crate::fx::sat_add;
use crate::fx::sat_sub;
use crate::math::sqrt_floor;
use crate::math::isqrt;

verus! {

/// A vector of three fixed-point scalars.
#[derive(Clone, Copy, PartialEq, Eq, Structural, Debug)]
pub struct Vec3 {
    pub x: i64,
    pub y: i64,
    pub z: i64,
}

/// The mathematical model of a `Vec3`: three unbounded integers.
pub ghost struct V3i {
    pub x: int,
    pub y: int,
    pub z: int,
}

impl View for Vec3 {
    type V = V3i;

    open spec fn view(&self) -> V3i {
        V3i { x: self.x as int, y: self.y as int, z: self.z as int }
    }
}

/// Componentwise saturating sum.
pub open spec fn v3_add(a: V3i, b: V3i) -> V3i {
    V3i {
        x: spec_sat_add(a.x, b.x),
        y: spec_sat_add(a.y, b.y),
        z: spec_sat_add(a.z, b.z),
    }
}

/// Componentwise saturating difference.
pub open spec fn v3_sub(a: V3i, b: V3i) -> V3i {
    V3i {
        x: spec_sat_sub(a.x, b.x),
        y: spec_sat_sub(a.y, b.y),
        z: spec_sat_sub(a.z, b.z),
    }
}

/// A vector scaled by a fixed-point factor.
pub open spec fn v3_scale(a: V3i, s: int) -> V3i {
    V3i { x: spec_fx_mul(a.x, s), y: spec_fx_mul(a.y, s), z: spec_fx_mul(a.z, s) }
}

/// The fixed-point dot product.
pub open spec fn v3_dot(a: V3i, b: V3i) -> int {
    sat64(spec_fx_mul(a.x, b.x) + spec_fx_mul(a.y, b.y) + spec_fx_mul(a.z, b.z))
}

/// The fixed-point cross product.
pub open spec fn v3_cross(a: V3i, b: V3i) -> V3i {
    V3i {
        x: spec_sat_sub(spec_fx_mul(a.y, b.z), spec_fx_mul(a.z, b.y)),
        y: spec_sat_sub(spec_fx_mul(a.z, b.x), spec_fx_mul(a.x, b.z)),
        z: spec_sat_sub(spec_fx_mul(a.x, b.y), spec_fx_mul(a.y, b.x)),
    }
}

/// The Euclidean length of a vector: because the components carry the
/// fixed-point scale once, the integer square root of the sum of their
/// squares is again a fixed-point scalar. Saturating, like every other
/// operation.
pub open spec fn v3_len(a: V3i) -> int {
    sat64(sqrt_floor((a.x * a.x + a.y * a.y + a.z * a.z) as nat) as int)
}

/// The vector divided by its own length; the zero vector stays zero.
pub open spec fn v3_normalize(a: V3i) -> V3i {
    let l = v3_len(a);
    V3i { x: spec_fx_div(a.x, l), y: spec_fx_div(a.y, l), z: spec_fx_div(a.z, l) }
}

/// The interpolation `a * (1 - f) + b * f`, componentwise.
pub open spec fn v3_mix(a: V3i, b: V3i, f: int) -> V3i {
    v3_add(v3_scale(a, spec_sat_sub(fx_scale(), f)), v3_scale(b, f))
}

/// Builds a vector from its three components.
pub fn vec3(x: i64, y: i64, z: i64) -> (r: Vec3)
    ensures
        r@ == (V3i { x: x as int, y: y as int, z: z as int }),
{
    Vec3 { x, y, z }
}

/// Vector addition.
pub fn add3(a: &Vec3, b: &Vec3) -> (r: Vec3)
    ensures
        r@ == v3_add(a@, b@),
{
    Vec3 { x: sat_add(a.x, b.x), y: sat_add(a.y, b.y), z: sat_add(a.z, b.z) }
}

/// Vector subtraction.
pub fn sub3(a: &Vec3, b: &Vec3) -> (r: Vec3)
    ensures
        r@ == v3_sub(a@, b@),
{
    Vec3 { x: sat_sub(a.x, b.x), y: sat_sub(a.y, b.y), z: sat_sub(a.z, b.z) }
}

/// Scaling by a fixed-point factor.
pub fn scale3(a: &Vec3, s: i64) -> (r: Vec3)
    ensures
        r@ == v3_scale(a@, s as int),
{
    Vec3 { x: fx_mul(a.x, s), y: fx_mul(a.y, s), z: fx_mul(a.z, s) }
}

/// Dot product.
pub fn dot3(a: &Vec3, b: &Vec3) -> (r: i64)
    ensures
        r as int == v3_dot(a@, b@),
{
    let px = fx_mul(a.x, b.x);
    let py = fx_mul(a.y, b.y);
    let pz = fx_mul(a.z, b.z);
    let s: i128 = px as i128 + py as i128 + pz as i128;
    if s > i64::MAX as i128 {
        i64::MAX
    } else if s < i64::MIN as i128 {
        i64::MIN
    } else {
        s as i64
    }
}

/// Cross product.
pub fn cross3(a: &Vec3, b: &Vec3) -> (r: Vec3)
    ensures
        r@ == v3_cross(a@, b@),
{
    Vec3 {
        x: sat_sub(fx_mul(a.y, b.z), fx_mul(a.z, b.y)),
        y: sat_sub(fx_mul(a.z, b.x), fx_mul(a.x, b.z)),
        z: sat_sub(fx_mul(a.x, b.y), fx_mul(a.y, b.x)),
    }
}

/// Euclidean length.
pub fn length3(a: &Vec3) -> (r: i64)
    ensures
        r as int == v3_len(a@),
{
    let sx: u128 = square_u128(a.x);
    let sy: u128 = square_u128(a.y);
    let sz: u128 = square_u128(a.z);
    let n: u128 = sx + sy + sz;
    let s = isqrt(n);
    if s > i64::MAX as u128 {
        i64::MAX
    } else {
        s as i64
    }
}

fn square_u128(a: i64) -> (r: u128)
    ensures
        r == (a as int) * (a as int),
        r <= 0x8000_0000_0000_0000u128 * 0x8000_0000_0000_0000u128,
{
    proof {
        assert((a as int) * (a as int) >= 0 && (a as int) * (a as int)
            <= 0x8000_0000_0000_0000int * 0x8000_0000_0000_0000int) by (nonlinear_arith)
            requires -0x8000_0000_0000_0000int <= a <= 0x7fff_ffff_ffff_ffffint;
    }
    let w: i128 = (a as i128) * (a as i128);
    w as u128
}

/// Normalization; the zero vector is returned unchanged.
pub fn normalize3(a: &Vec3) -> (r: Vec3)
    ensures
        r@ == v3_normalize(a@),
{
    let l = length3(a);
    Vec3 { x: fx_div(a.x, l), y: fx_div(a.y, l), z: fx_div(a.z, l) }
}

/// Linear interpolation `a * (1 - f) + b * f`.
pub fn mix3(a: &Vec3, b: &Vec3, f: i64) -> (r: Vec3)
    ensures
        r@ == v3_mix(a@, b@, f as int),
{
    let one_minus = sat_sub(FX_ONE, f);
    let pa = scale3(a, one_minus);
    let pb = scale3(b, f);
    add3(&pa, &pb)
}

} // verus!
