//! Q31.32 fixed-point scalars: the `i64` value `v` stands for the real
//! number `v / 2^32`. Multiplication and division truncate toward zero and
//! saturate at the `i64` range, so every operation is total.

use vstd::prelude::*;
use vstd::math::abs;

verus! {

/// The fixed-point representation of one: `2^32`.
pub const FX_ONE: i64 = 0x1_0000_0000;

/// The fixed-point scale as a mathematical integer.
pub open spec fn fx_scale() -> int {
    0x1_0000_0000
}

/// Saturation of a mathematical integer into the `i64` range.
pub open spec fn sat64(v: int) -> int {
    if v > i64::MAX {
        i64::MAX as int
    } else if v < i64::MIN {
        i64::MIN as int
    } else {
        v
    }
}

/// Division truncating toward zero, total: zero when the divisor is zero.
pub open spec fn trunc_div(a: int, b: int) -> int {
    if b == 0 {
        0
    } else if (a < 0) != (b < 0) {
        -((abs(a) as int) / (abs(b) as int))
    } else {
        (abs(a) as int) / (abs(b) as int)
    }
}

/// The fixed-point product of `a` and `b`.
pub open spec fn spec_fx_mul(a: int, b: int) -> int {
    sat64(trunc_div(a * b, fx_scale()))
}

/// The fixed-point quotient of `a` by `b`.
pub open spec fn spec_fx_div(a: int, b: int) -> int {
    sat64(trunc_div(a * fx_scale(), b))
}

/// The saturating sum of `a` and `b`.
pub open spec fn spec_sat_add(a: int, b: int) -> int {
    sat64(a + b)
}

/// The saturating difference of `a` and `b`.
pub open spec fn spec_sat_sub(a: int, b: int) -> int {
    sat64(a - b)
}

proof fn lemma_abs_mul(a: int, b: int)
    ensures
        abs(a) * abs(b) == abs(a * b),
        (a * b < 0) <==> (a != 0 && b != 0 && ((a < 0) != (b < 0))),
{
    if a >= 0 && b >= 0 {
        assert(a * b >= 0) by (nonlinear_arith)
            requires a >= 0 && b >= 0;
    } else if a >= 0 && b < 0 {
        assert(a * b <= 0 && a * (-b) == -(a * b)) by (nonlinear_arith)
            requires a >= 0 && b < 0;
        assert(a != 0 ==> a * b < 0) by (nonlinear_arith)
            requires a > 0 || a == 0, b < 0;
    } else if a < 0 && b >= 0 {
        assert(a * b <= 0 && (-a) * b == -(a * b)) by (nonlinear_arith)
            requires a < 0 && b >= 0;
        assert(b != 0 ==> a * b < 0) by (nonlinear_arith)
            requires a < 0, b >= 0;
    } else {
        assert(a * b > 0 && (-a) * (-b) == a * b) by (nonlinear_arith)
            requires a < 0 && b < 0;
    }
}

/// Multiplying by plus or minus one in fixed point is exact.
pub proof fn lemma_fx_mul_unit(a: int)
    requires
        -0x7fff_ffff_ffff_ffff <= a <= 0x7fff_ffff_ffff_ffff,
    ensures
        spec_fx_mul(a, fx_scale()) == a,
        spec_fx_mul(a, -fx_scale()) == -a,
{
    let s = fx_scale();
    lemma_abs_mul(a, s);
    lemma_abs_mul(a, -s);
    vstd::arithmetic::div_mod::lemma_div_multiples_vanish(abs(a) as int, s);
    assert(abs(a * s) == abs(a) * s);
    assert(abs(a * -s) == abs(a) * s) by {
        assert(abs(-s) == s);
    }
    assert((abs(a) * s) / s == abs(a) as int) by {
        assert(s * (abs(a) as int) == abs(a) * s);
    }
}

/// Multiplying by two in fixed point is exact within half the range.
pub proof fn lemma_fx_mul_double(a: int)
    requires
        -0x2000_0000_0000_0000 <= a <= 0x2000_0000_0000_0000,
    ensures
        spec_fx_mul(a, 2 * fx_scale()) == 2 * a,
{
    let s = fx_scale();
    lemma_abs_mul(a, 2 * s);
    vstd::arithmetic::div_mod::lemma_div_multiples_vanish(2 * (abs(a) as int), s);
    assert(abs(a * (2 * s)) == abs(a) * (2 * s));
    assert((abs(a) * (2 * s)) / s == 2 * (abs(a) as int)) by {
        assert(s * (2 * (abs(a) as int)) == abs(a) * (2 * s)) by (nonlinear_arith);
    }
}

pub(crate) fn abs_u128(a: i64) -> (r: u128)
    ensures
        r == abs(a as int),
{
    if a >= 0 {
        a as u128
    } else {
        (-(a as i128)) as u128
    }
}

fn sign_sat(neg: bool, q: u128) -> (r: i64)
    ensures
        r as int == sat64(if neg { -(q as int) } else { q as int }),
{
    if neg {
        if q >= 0x8000_0000_0000_0000u128 {
            i64::MIN
        } else {
            -(q as i64)
        }
    } else {
        if q > i64::MAX as u128 {
            i64::MAX
        } else {
            q as i64
        }
    }
}

/// Fixed-point multiplication: truncating toward zero, saturating.
pub fn fx_mul(a: i64, b: i64) -> (r: i64)
    ensures
        r as int == spec_fx_mul(a as int, b as int),
{
    let neg = (a < 0) != (b < 0);
    let ma = abs_u128(a);
    let mb = abs_u128(b);
    proof {
        lemma_abs_mul(a as int, b as int);
        assert(ma * mb <= 0x8000_0000_0000_0000u128 * 0x8000_0000_0000_0000u128)
            by (nonlinear_arith)
            requires ma <= 0x8000_0000_0000_0000u128 && mb <= 0x8000_0000_0000_0000u128;
    }
    let p: u128 = ma * mb;
    let q: u128 = p / 0x1_0000_0000u128;
    proof {
        assert(q == (abs((a as int) * (b as int)) as int) / fx_scale());
        if (a as int) * (b as int) == 0 {
            assert(q == 0);
        }
    }
    sign_sat(neg, q)
}

/// Fixed-point division: truncating toward zero, saturating, and zero when
/// the divisor is zero.
pub fn fx_div(a: i64, b: i64) -> (r: i64)
    ensures
        r as int == spec_fx_div(a as int, b as int),
{
    if b == 0 {
        return 0;
    }
    let neg = (a < 0) != (b < 0);
    let ma = abs_u128(a);
    let mb = abs_u128(b);
    proof {
        lemma_abs_mul(a as int, fx_scale());
        assert(ma * 0x1_0000_0000u128 <= 0x8000_0000_0000_0000u128 * 0x1_0000_0000u128)
            by (nonlinear_arith)
            requires ma <= 0x8000_0000_0000_0000u128;
    }
    let p: u128 = ma * 0x1_0000_0000u128;
    let q: u128 = p / mb;
    proof {
        assert(abs((a as int) * fx_scale()) == ma * 0x1_0000_0000u128);
        if a == 0 {
            assert(q == 0);
        }
    }
    sign_sat(neg, q)
}

/// Saturating addition.
pub fn sat_add(a: i64, b: i64) -> (r: i64)
    ensures
        r as int == spec_sat_add(a as int, b as int),
{
    let s: i128 = a as i128 + b as i128;
    if s > i64::MAX as i128 {
        i64::MAX
    } else if s < i64::MIN as i128 {
        i64::MIN
    } else {
        s as i64
    }
}

/// Saturating subtraction.
pub fn sat_sub(a: i64, b: i64) -> (r: i64)
    ensures
        r as int == spec_sat_sub(a as int, b as int),
{
    let s: i128 = a as i128 - b as i128;
    if s > i64::MAX as i128 {
        i64::MAX
    } else if s < i64::MIN as i128 {
        i64::MIN
    } else {
        s as i64
    }
}

/// Saturating negation.
pub fn sat_neg(a: i64) -> (r: i64)
    ensures
        r as int == sat64(-(a as int)),
{
    if a == i64::MIN {
        i64::MAX
    } else {
        -a
    }
}

} // verus!
