//! Fixed-point numeric kernels: integer square root and polynomial
//! approximations of the transcendental functions the camera and the
//! distance estimator use. Every executable function returns exactly the
//! value of its specification function, which fixes the argument reduction
//! and the truncated polynomial evaluation order.

use vstd::prelude::*;
use vstd::math::abs;
use vstd::arithmetic::power2::pow2;
use vstd::arithmetic::power2::lemma_pow2_strictly_increases;
use vstd::arithmetic::power2::lemma2_to64;

use crate::fx::FX_ONE;
use crate::fx::fx_scale;
use crate::fx::sat64;
use crate::fx::spec_fx_mul;
use crate::fx::spec_fx_div;
use crate::fx::spec_sat_add;
use crate::fx::spec_sat_sub;
use crate::fx::fx_mul;
use crate::fx::fx_div;
use crate::fx::sat_add;
use crate::fx::sat_sub;
use crate::fx::sat_neg;
use crate::fx::abs_u128;

verus! {

/// Pi in Q31.32.
pub const FX_PI: i64 = 13493037704;

/// Two pi in Q31.32.
pub const FX_TWO_PI: i64 = 26986075409;

/// Half pi in Q31.32.
pub const FX_HALF_PI: i64 = 6746518852;

/// The natural logarithm of two in Q31.32.
pub const FX_LN2: i64 = 2977044471;

/// Exponent clamp: `exp_fx` evaluates its argument within `[-21, 21]`.
pub const FX_EXP_MAX: i64 = 21 * 0x1_0000_0000;

pub const LN2_TIMES_31: i64 = 31 * 2977044471;

pub const FX_TWO: i64 = 2 * 0x1_0000_0000;

pub const C2: i64 = 2 * 0x1_0000_0000;

pub const C3: i64 = 3 * 0x1_0000_0000;

pub const C5: i64 = 5 * 0x1_0000_0000;

pub const C6: i64 = 6 * 0x1_0000_0000;

pub const C7: i64 = 7 * 0x1_0000_0000;

pub const C9: i64 = 9 * 0x1_0000_0000;

pub const C24: i64 = 24 * 0x1_0000_0000;

pub const C120: i64 = 120 * 0x1_0000_0000;

pub const C720: i64 = 720 * 0x1_0000_0000;

pub const C5040: i64 = 5040 * 0x1_0000_0000;

pub const C362880: i64 = 362880 * 0x1_0000_0000;

/// The integer square root: the largest `r` with `r * r <= n`.
pub open spec fn sqrt_floor(n: nat) -> nat
    decreases n,
{
    if n == 0 {
        0
    } else {
        let r = sqrt_floor((n - 1) as nat);
        if (r + 1) * (r + 1) <= n {
            r + 1
        } else {
            r
        }
    }
}

/// `sqrt_floor` is indeed the floor of the square root.
pub proof fn lemma_sqrt_floor(n: nat)
    ensures
        sqrt_floor(n) * sqrt_floor(n) <= n,
        n < (sqrt_floor(n) + 1) * (sqrt_floor(n) + 1),
    decreases n,
{
    if n > 0 {
        lemma_sqrt_floor((n - 1) as nat);
        let r = sqrt_floor((n - 1) as nat);
        assert(r * r <= n - 1);
        assert(n - 1 < (r + 1) * (r + 1));
        assert(sqrt_floor(n) == if (r + 1) * (r + 1) <= n { r + 1 } else { r });
        if (r + 1) * (r + 1) <= n {
            assert((r + 1) * (r + 1) + 1 <= (r + 2) * (r + 2)) by (nonlinear_arith)
                requires r >= 0;
            assert(n < (r + 2) * (r + 2));
            assert((sqrt_floor(n) + 1) * (sqrt_floor(n) + 1) == (r + 2) * (r + 2))
                by (nonlinear_arith)
                requires sqrt_floor(n) == r + 1;
            assert(n < (sqrt_floor(n) + 1) * (sqrt_floor(n) + 1));
        } else {
            assert((sqrt_floor(n) + 1) * (sqrt_floor(n) + 1) == (r + 1) * (r + 1))
                by (nonlinear_arith)
                requires sqrt_floor(n) == r;
            assert(n < (sqrt_floor(n) + 1) * (sqrt_floor(n) + 1));
        }
    } else {
        assert(sqrt_floor(0nat) == 0);
        assert(n < (sqrt_floor(n) + 1) * (sqrt_floor(n) + 1)) by (nonlinear_arith)
            requires n == 0 && sqrt_floor(n) == 0;
    }
}

proof fn lemma_sqrt_unique(n: nat, r: nat)
    requires
        r * r <= n,
        n < (r + 1) * (r + 1),
    ensures
        r == sqrt_floor(n),
{
    lemma_sqrt_floor(n);
    let s = sqrt_floor(n);
    if r < s {
        assert((r + 1) * (r + 1) <= s * s) by (nonlinear_arith)
            requires r + 1 <= s;
    }
    if r > s {
        assert((s + 1) * (s + 1) <= r * r) by (nonlinear_arith)
            requires s + 1 <= r;
    }
}

/// Binary-search integer square root.
pub fn isqrt(n: u128) -> (r: u128)
    ensures
        r == sqrt_floor(n as nat),
{
    if n == 0 {
        proof {
            assert(sqrt_floor(0nat) == 0);
        }
        return 0;
    }
    let mut lo: u128 = 0;
    let mut hi: u128 = 0x1_0000_0000_0000_0000u128;
    proof {
        assert(n < hi * hi) by (nonlinear_arith)
            requires n < 0x1_0000_0000_0000_0000_0000_0000_0000_0000int
                && hi == 0x1_0000_0000_0000_0000u128;
    }
    while hi - lo > 1
        invariant
            lo < hi,
            hi <= 0x1_0000_0000_0000_0000u128,
            lo * lo <= n,
            n < hi * hi,
        decreases hi - lo,
    {
        let mid = lo + (hi - lo) / 2;
        proof {
            assert(mid < hi);
            assert(mid * mid <= 0xffff_ffff_ffff_ffffu128 * 0xffff_ffff_ffff_ffffu128)
                by (nonlinear_arith)
                requires mid <= 0xffff_ffff_ffff_ffffu128;
        }
        if mid * mid <= n {
            lo = mid;
        } else {
            hi = mid;
        }
    }
    proof {
        lemma_sqrt_unique(n as nat, lo as nat);
    }
    lo
}

/// The square root of a fixed-point value, zero on non-positive input.
pub open spec fn spec_sqrt_fx(x: int) -> int {
    if x <= 0 {
        0
    } else {
        sqrt_floor((x * fx_scale()) as nat) as int
    }
}

/// Fixed-point square root.
pub fn sqrt_fx(x: i64) -> (r: i64)
    ensures
        r as int == spec_sqrt_fx(x as int),
{
    if x <= 0 {
        return 0;
    }
    let n: u128 = (x as u128) * 0x1_0000_0000u128;
    let s = isqrt(n);
    proof {
        lemma_sqrt_floor(n as nat);
        if s >= 0x1_0000_0000_0000u128 {
            assert(s * s >= 0x1_0000_0000_0000u128 * 0x1_0000_0000_0000u128)
                by (nonlinear_arith)
                requires s >= 0x1_0000_0000_0000u128;
        }
    }
    s as i64
}

/// Remainder truncating toward zero, total: zero when the divisor is zero.
pub open spec fn trunc_rem(a: int, b: int) -> int {
    if b == 0 {
        0
    } else if a < 0 {
        -((abs(a) as int) % (abs(b) as int))
    } else {
        (abs(a) as int) % (abs(b) as int)
    }
}

/// Reduction of an angle into `[-pi, pi]`.
pub open spec fn spec_reduce_angle(x: int) -> int {
    let q = trunc_rem(x, FX_TWO_PI as int);
    if q > FX_PI {
        q - FX_TWO_PI
    } else if q < -FX_PI {
        q + FX_TWO_PI
    } else {
        q
    }
}

fn reduce_angle(x: i64) -> (r: i64)
    ensures
        r as int == spec_reduce_angle(x as int),
        -FX_PI <= r <= FX_PI,
{
    let ma = abs_u128(x);
    let mq = ma % (FX_TWO_PI as u128);
    let q: i64 = if x < 0 {
        -(mq as i64)
    } else {
        mq as i64
    };
    if q > FX_PI {
        q - FX_TWO_PI
    } else if q < -FX_PI {
        q + FX_TWO_PI
    } else {
        q
    }
}

/// Odd Taylor polynomial for the sine on `[-pi/2, pi/2]`.
pub open spec fn sin_taylor(q: int) -> int {
    let q2 = spec_fx_mul(q, q);
    let q3 = spec_fx_mul(q2, q);
    let q5 = spec_fx_mul(q3, q2);
    let q7 = spec_fx_mul(q5, q2);
    let q9 = spec_fx_mul(q7, q2);
    spec_sat_add(
        spec_sat_sub(
            spec_sat_add(
                spec_sat_sub(q, spec_fx_div(q3, C6 as int)),
                spec_fx_div(q5, C120 as int),
            ),
            spec_fx_div(q7, C5040 as int),
        ),
        spec_fx_div(q9, C362880 as int),
    )
}

/// The fixed-point sine: reduction into `[-pi, pi]`, a fold into
/// `[-pi/2, pi/2]`, then the odd Taylor polynomial.
pub open spec fn spec_sin_fx(x: int) -> int {
    let q = spec_reduce_angle(x);
    let f = if q > FX_HALF_PI {
        FX_PI - q
    } else if q < -FX_HALF_PI {
        -FX_PI - q
    } else {
        q
    };
    sin_taylor(f)
}

fn sin_taylor_exec(q: i64) -> (r: i64)
    ensures
        r as int == sin_taylor(q as int),
{
    let q2 = fx_mul(q, q);
    let q3 = fx_mul(q2, q);
    let q5 = fx_mul(q3, q2);
    let q7 = fx_mul(q5, q2);
    let q9 = fx_mul(q7, q2);
    sat_add(
        sat_sub(sat_add(sat_sub(q, fx_div(q3, C6)), fx_div(q5, C120)), fx_div(q7, C5040)),
        fx_div(q9, C362880),
    )
}

/// Fixed-point sine.
pub fn sin_fx(x: i64) -> (r: i64)
    ensures
        r as int == spec_sin_fx(x as int),
{
    let q = reduce_angle(x);
    let f = if q > FX_HALF_PI {
        FX_PI - q
    } else if q < -FX_HALF_PI {
        -FX_PI - q
    } else {
        q
    };
    sin_taylor_exec(f)
}

/// The fixed-point cosine, as the sine shifted by half pi.
pub open spec fn spec_cos_fx(x: int) -> int {
    spec_sin_fx(sat64(x + FX_HALF_PI))
}

/// Fixed-point cosine.
pub fn cos_fx(x: i64) -> (r: i64)
    ensures
        r as int == spec_cos_fx(x as int),
{
    sin_fx(sat_add(x, FX_HALF_PI))
}

/// The fixed-point tangent, as the quotient of sine by cosine.
pub open spec fn spec_tan_fx(x: int) -> int {
    spec_fx_div(spec_sin_fx(x), spec_cos_fx(x))
}

/// Fixed-point tangent.
pub fn tan_fx(x: i64) -> (r: i64)
    ensures
        r as int == spec_tan_fx(x as int),
{
    fx_div(sin_fx(x), cos_fx(x))
}

/// Taylor polynomial for `e^r` on `[0, ln 2)`.
pub open spec fn exp_taylor(r: int) -> int {
    let r2 = spec_fx_mul(r, r);
    let r3 = spec_fx_mul(r2, r);
    let r4 = spec_fx_mul(r3, r);
    let r5 = spec_fx_mul(r4, r);
    let r6 = spec_fx_mul(r5, r);
    let r7 = spec_fx_mul(r6, r);
    spec_sat_add(
        spec_sat_add(
            spec_sat_add(
                spec_sat_add(
                    spec_sat_add(
                        spec_sat_add(
                            spec_sat_add(fx_scale(), r),
                            spec_fx_div(r2, C2 as int),
                        ),
                        spec_fx_div(r3, C6 as int),
                    ),
                    spec_fx_div(r4, C24 as int),
                ),
                spec_fx_div(r5, C120 as int),
            ),
            spec_fx_div(r6, C720 as int),
        ),
        spec_fx_div(r7, C5040 as int),
    )
}

/// The fixed-point exponential: the argument is clamped into
/// `[-FX_EXP_MAX, FX_EXP_MAX]`, split as `k * ln 2 + r` with
/// `r` in `[0, ln 2)`, and the result is the Taylor value of `e^r`
/// scaled by `2^k`.
pub open spec fn spec_exp_fx(x: int) -> int {
    let xc = if x > FX_EXP_MAX {
        FX_EXP_MAX as int
    } else if x < -FX_EXP_MAX {
        -FX_EXP_MAX as int
    } else {
        x
    };
    let y = xc + LN2_TIMES_31;
    let kp = y / (FX_LN2 as int);
    let r = y % (FX_LN2 as int);
    let p = exp_taylor(r);
    if kp >= 31 {
        sat64(p * pow2((kp - 31) as nat))
    } else if p <= 0 {
        0
    } else {
        p / (pow2((31 - kp) as nat) as int)
    }
}

fn exp_taylor_exec(r: i64) -> (res: i64)
    ensures
        res as int == exp_taylor(r as int),
{
    let r2 = fx_mul(r, r);
    let r3 = fx_mul(r2, r);
    let r4 = fx_mul(r3, r);
    let r5 = fx_mul(r4, r);
    let r6 = fx_mul(r5, r);
    let r7 = fx_mul(r6, r);
    sat_add(
        sat_add(
            sat_add(
                sat_add(
                    sat_add(sat_add(sat_add(FX_ONE, r), fx_div(r2, C2)), fx_div(r3, C6)),
                    fx_div(r4, C24),
                ),
                fx_div(r5, C120),
            ),
            fx_div(r6, C720),
        ),
        fx_div(r7, C5040),
    )
}

fn pow2_u128(e: u64) -> (r: u128)
    requires
        e <= 63,
    ensures
        r == pow2(e as nat),
{
    let mut i: u64 = 0;
    let mut r: u128 = 1;
    proof {
        lemma2_to64();
    }
    while i < e
        invariant
            i <= e,
            e <= 63,
            r == pow2(i as nat),
        decreases e - i,
    {
        proof {
            lemma2_to64();
            vstd::arithmetic::power2::lemma2_to64_rest();
            if (i as nat) < 63 {
                lemma_pow2_strictly_increases(i as nat, 63);
            }
        }
        r = r * 2;
        i = i + 1;
        proof {
            vstd::arithmetic::power2::lemma_pow2_adds((i - 1) as nat, 1);
            lemma2_to64();
        }
    }
    r
}

/// Fixed-point exponential.
pub fn exp_fx(x: i64) -> (res: i64)
    ensures
        res as int == spec_exp_fx(x as int),
{
    let xc: i64 = if x > FX_EXP_MAX {
        FX_EXP_MAX
    } else if x < -FX_EXP_MAX {
        -FX_EXP_MAX
    } else {
        x
    };
    let y: u64 = (xc + LN2_TIMES_31) as u64;
    let kp: u64 = y / (FX_LN2 as u64);
    let r: i64 = (y % (FX_LN2 as u64)) as i64;
    let p = exp_taylor_exec(r);
    proof {
        assert((y as int) / (FX_LN2 as int) == kp as int);
        assert((y as int) % (FX_LN2 as int) == r as int);
        if kp >= 62 {
            assert((kp as int) * (FX_LN2 as int) >= 62 * (FX_LN2 as int)) by (nonlinear_arith)
                requires kp >= 62int && FX_LN2 > 0;
            vstd::arithmetic::div_mod::lemma_fundamental_div_mod(y as int, FX_LN2 as int);
        }
    }
    if kp >= 31 {
        let p2 = pow2_u128(kp - 31);
        proof {
            lemma2_to64();
            if ((kp - 31) as nat) < 63 {
                lemma_pow2_strictly_increases((kp - 31) as nat, 63);
            }
            assert((p as int) * (p2 as int) < 0x4000_0000_0000_0000_0000_0000_0000_0000int
                && (p as int) * (p2 as int) > -0x4000_0000_0000_0000_0000_0000_0000_0000int)
                by (nonlinear_arith)
                requires
                    -0x8000_0000_0000_0000int <= p <= 0x7fff_ffff_ffff_ffffint
                        && 0 <= p2 < 0x8000_0000_0000_0000int,
            ;
        }
        let prod: i128 = (p as i128) * (p2 as i128);
        if prod > i64::MAX as i128 {
            i64::MAX
        } else if prod < i64::MIN as i128 {
            i64::MIN
        } else {
            prod as i64
        }
    } else {
        if p <= 0 {
            0
        } else {
            let p2 = pow2_u128(31 - kp);
            proof {
                vstd::arithmetic::power2::lemma_pow2_pos((31 - kp) as nat);
            }
            let q = (p as u128) / p2;
            proof {
                assert(q <= p as u128) by (nonlinear_arith)
                    requires p2 >= 1 && q == (p as u128) / p2 && p >= 0;
            }
            q as i64
        }
    }
}

/// Odd Taylor polynomial for the hyperbolic arctangent.
pub open spec fn atanh_taylor(w: int) -> int {
    let w2 = spec_fx_mul(w, w);
    let w3 = spec_fx_mul(w2, w);
    let w5 = spec_fx_mul(w3, w2);
    let w7 = spec_fx_mul(w5, w2);
    let w9 = spec_fx_mul(w7, w2);
    spec_sat_add(
        spec_sat_add(
            spec_sat_add(
                spec_sat_add(w, spec_fx_div(w3, C3 as int)),
                spec_fx_div(w5, C5 as int),
            ),
            spec_fx_div(w7, C7 as int),
        ),
        spec_fx_div(w9, C9 as int),
    )
}

/// The logarithm of a mantissa in `[1, 2)`, via the hyperbolic arctangent.
pub open spec fn spec_lnm(m: int) -> int {
    let w = spec_fx_div(spec_sat_sub(m, fx_scale()), spec_sat_add(m, fx_scale()));
    sat64(2 * atanh_taylor(w))
}

/// The mantissa left after halving `x` until it is below two.
pub open spec fn norm_down_m(x: int) -> int
    decreases x when x >= 1
{
    if x >= 2 * fx_scale() {
        norm_down_m(x / 2)
    } else {
        x
    }
}

/// How many halvings `norm_down_m` performs.
pub open spec fn norm_down_k(x: int) -> int
    decreases x when x >= 1
{
    if x >= 2 * fx_scale() {
        norm_down_k(x / 2) + 1
    } else {
        0
    }
}

/// The mantissa reached by doubling `x` until it is at least one.
pub open spec fn norm_up_m(x: int) -> int
    decreases (if x < fx_scale() { fx_scale() - x } else { 0int }) when 1 <= x
{
    if x < fx_scale() {
        norm_up_m(2 * x)
    } else {
        x
    }
}

/// How many doublings `norm_up_m` performs.
pub open spec fn norm_up_k(x: int) -> int
    decreases (if x < fx_scale() { fx_scale() - x } else { 0int }) when 1 <= x
{
    if x < fx_scale() {
        norm_up_k(2 * x) + 1
    } else {
        0
    }
}

/// The fixed-point natural logarithm, zero on non-positive input: the
/// argument is scaled by a power of two into `[1, 2)` and the mantissa
/// logarithm is corrected by that many multiples of `ln 2`.
pub open spec fn spec_ln_fx(x: int) -> int {
    if x <= 0 {
        0
    } else if x >= 2 * fx_scale() {
        spec_sat_add(sat64(norm_down_k(x) * FX_LN2), spec_lnm(norm_down_m(x)))
    } else if x < fx_scale() {
        spec_sat_sub(spec_lnm(norm_up_m(x)), sat64(norm_up_k(x) * FX_LN2))
    } else {
        spec_lnm(x)
    }
}

fn lnm_exec(m: i64) -> (r: i64)
    ensures
        r as int == spec_lnm(m as int),
{
    let w = fx_div(sat_sub(m, FX_ONE), sat_add(m, FX_ONE));
    let w2 = fx_mul(w, w);
    let w3 = fx_mul(w2, w);
    let w5 = fx_mul(w3, w2);
    let w7 = fx_mul(w5, w2);
    let w9 = fx_mul(w7, w2);
    let t = sat_add(
        sat_add(sat_add(sat_add(w, fx_div(w3, C3)), fx_div(w5, C5)), fx_div(w7, C7)),
        fx_div(w9, C9),
    );
    sat_add(t, t)
}

/// Fixed-point natural logarithm.
pub fn ln_fx(x: i64) -> (res: i64)
    ensures
        res as int == spec_ln_fx(x as int),
{
    if x <= 0 {
        return 0;
    }
    if x >= FX_TWO {
        let mut v: u64 = x as u64;
        let mut k: u64 = 0;
        proof {
            lemma2_to64();
        }
        while v >= FX_TWO as u64
            invariant
                1 <= v,
                x >= FX_TWO,
                k <= 62,
                pow2(k as nat) * (v as int) <= x as int,
                norm_down_m(x as int) == norm_down_m(v as int),
                norm_down_k(x as int) == norm_down_k(v as int) + k,
            decreases v,
        {
            proof {
                lemma2_to64();
                vstd::arithmetic::power2::lemma2_to64_rest();
                vstd::arithmetic::power2::lemma_pow2_adds(k as nat, 1);
                assert(pow2((k + 1) as nat) * ((v as int) / 2) <= pow2(k as nat) * (v as int))
                    by (nonlinear_arith)
                    requires
                        pow2((k + 1) as nat) == pow2(k as nat) * 2 && pow2(k as nat) >= 0
                            && v >= 2 && 2 * ((v as int) / 2) <= v as int && (v as int) / 2
                            >= 0,
                ;
                assert(pow2((k + 1) as nat) <= pow2(k as nat) * (v as int)) by (nonlinear_arith)
                    requires
                        pow2((k + 1) as nat) == pow2(k as nat) * 2 && pow2(k as nat) >= 0
                            && v >= 2,
                ;
                if k + 1 >= 63 {
                    if k + 1 > 63 {
                        lemma_pow2_strictly_increases(63, (k + 1) as nat);
                    }
                    assert(false);
                }
            }
            v = v / 2;
            k = k + 1;
        }
        let kl128: i128 = (k as i128) * (FX_LN2 as i128);
        let kl: i64 = if kl128 > i64::MAX as i128 {
            i64::MAX
        } else {
            kl128 as i64
        };
        proof {
            assert((k as int) * (FX_LN2 as int) == kl128 as int) by (nonlinear_arith)
                requires
                    k <= u64::MAX && FX_LN2 == 2977044471 && kl128 == (k as i128) * (
                    FX_LN2 as i128),
            ;
            assert(kl128 >= 0) by (nonlinear_arith)
                requires k >= 0 && kl128 == (k as i128) * (FX_LN2 as i128);
        }
        let lm = lnm_exec(v as i64);
        sat_add(kl, lm)
    } else if x < FX_ONE {
        let mut v: u64 = x as u64;
        let mut j: u64 = 0;
        proof {
            lemma2_to64();
        }
        while v < FX_ONE as u64
            invariant
                1 <= v < FX_TWO as u64,
                1 <= x < FX_ONE,
                j <= 33,
                (x as int) * pow2(j as nat) == v as int,
                norm_up_m(x as int) == norm_up_m(v as int),
                norm_up_k(x as int) == norm_up_k(v as int) + j,
            decreases (if v < FX_ONE as u64 { FX_ONE as int - v as int } else { 0int }),
        {
            proof {
                lemma2_to64();
                vstd::arithmetic::power2::lemma_pow2_adds(j as nat, 1);
                assert((x as int) * pow2((j + 1) as nat) == 2 * ((x as int) * pow2(j as nat)))
                    by (nonlinear_arith)
                    requires pow2((j + 1) as nat) == pow2(j as nat) * 2,
                ;
                assert(pow2(j as nat) <= (x as int) * pow2(j as nat)) by (nonlinear_arith)
                    requires x >= 1 && pow2(j as nat) >= 0;
                if j + 1 > 33 {
                    lemma_pow2_strictly_increases(32, j as nat);
                }
            }
            v = v * 2;
            j = j + 1;
        }
        let jl128: i128 = (j as i128) * (FX_LN2 as i128);
        let jl: i64 = if jl128 > i64::MAX as i128 {
            i64::MAX
        } else {
            jl128 as i64
        };
        proof {
            assert((j as int) * (FX_LN2 as int) == jl128 as int) by (nonlinear_arith)
                requires
                    j <= u64::MAX && FX_LN2 == 2977044471 && jl128 == (j as i128) * (
                    FX_LN2 as i128),
            ;
            assert(jl128 >= 0) by (nonlinear_arith)
                requires j >= 0 && jl128 == (j as i128) * (FX_LN2 as i128);
        }
        let lm = lnm_exec(v as i64);
        sat_sub(lm, jl)
    } else {
        lnm_exec(x)
    }
}

/// Odd Taylor polynomial for the arctangent near zero.
pub open spec fn atan_taylor(w: int) -> int {
    let w2 = spec_fx_mul(w, w);
    let w3 = spec_fx_mul(w2, w);
    let w5 = spec_fx_mul(w3, w2);
    let w7 = spec_fx_mul(w5, w2);
    spec_sat_sub(
        spec_sat_add(spec_sat_sub(w, spec_fx_div(w3, C3 as int)), spec_fx_div(w5, C5 as int)),
        spec_fx_div(w7, C7 as int),
    )
}

/// One argument-halving step: `atan(w) == 2 atan(w / (1 + sqrt(1 + w^2)))`.
pub open spec fn atan_half(w: int) -> int {
    spec_fx_div(
        w,
        spec_sat_add(fx_scale(), spec_sqrt_fx(spec_sat_add(fx_scale(), spec_fx_mul(w, w)))),
    )
}

/// The arctangent on `[-1, 1]`: two halvings, the Taylor polynomial, and a
/// factor of four.
pub open spec fn spec_atan_core(w: int) -> int {
    let w1 = atan_half(w);
    let w2 = atan_half(w1);
    sat64(4 * atan_taylor(w2))
}

/// The fixed-point arctangent, using `atan(t) = +-(pi/2) - atan(1/t)` for
/// arguments beyond one.
pub open spec fn spec_atan_fx(t: int) -> int {
    if t > fx_scale() {
        spec_sat_sub(FX_HALF_PI as int, spec_atan_core(spec_fx_div(fx_scale(), t)))
    } else if t < -fx_scale() {
        spec_sat_sub(spec_atan_core(spec_fx_div(fx_scale(), sat64(-t))), FX_HALF_PI as int)
    } else {
        spec_atan_core(t)
    }
}

fn atan_half_exec(w: i64) -> (r: i64)
    ensures
        r as int == atan_half(w as int),
{
    fx_div(w, sat_add(FX_ONE, sqrt_fx(sat_add(FX_ONE, fx_mul(w, w)))))
}

fn atan_core(w: i64) -> (r: i64)
    ensures
        r as int == spec_atan_core(w as int),
{
    let w1 = atan_half_exec(w);
    let w2 = atan_half_exec(w1);
    let w22 = fx_mul(w2, w2);
    let w3 = fx_mul(w22, w2);
    let w5 = fx_mul(w3, w22);
    let w7 = fx_mul(w5, w22);
    let t = sat_sub(sat_add(sat_sub(w2, fx_div(w3, C3)), fx_div(w5, C5)), fx_div(w7, C7));
    let f: i128 = 4 * (t as i128);
    if f > i64::MAX as i128 {
        i64::MAX
    } else if f < i64::MIN as i128 {
        i64::MIN
    } else {
        f as i64
    }
}

/// Fixed-point arctangent.
pub fn atan_fx(t: i64) -> (r: i64)
    ensures
        r as int == spec_atan_fx(t as int),
{
    if t > FX_ONE {
        sat_sub(FX_HALF_PI, atan_core(fx_div(FX_ONE, t)))
    } else if t < -FX_ONE {
        sat_sub(atan_core(fx_div(FX_ONE, sat_neg(t))), FX_HALF_PI)
    } else {
        atan_core(t)
    }
}

/// The fixed-point arcsine on clamped input, via
/// `asin(u) = atan(u / sqrt(1 - u^2))` with the poles special-cased.
pub open spec fn spec_asin_fx(u: int) -> int {
    let uc = if u > fx_scale() {
        fx_scale()
    } else if u < -fx_scale() {
        -fx_scale()
    } else {
        u
    };
    let d = spec_sat_sub(fx_scale(), spec_fx_mul(uc, uc));
    if d <= 0 {
        if uc >= 0 {
            FX_HALF_PI as int
        } else {
            -FX_HALF_PI as int
        }
    } else {
        spec_atan_fx(spec_fx_div(uc, spec_sqrt_fx(d)))
    }
}

/// Fixed-point arcsine.
pub fn asin_fx(u: i64) -> (r: i64)
    ensures
        r as int == spec_asin_fx(u as int),
{
    let uc: i64 = if u > FX_ONE {
        FX_ONE
    } else if u < -FX_ONE {
        -FX_ONE
    } else {
        u
    };
    let d = sat_sub(FX_ONE, fx_mul(uc, uc));
    if d <= 0 {
        if uc >= 0 {
            FX_HALF_PI
        } else {
            -FX_HALF_PI
        }
    } else {
        atan_fx(fx_div(uc, sqrt_fx(d)))
    }
}

/// The fixed-point power `b^e`, as `exp(e ln b)`; zero when the base is not
/// positive.
pub open spec fn spec_pow_fx(b: int, e: int) -> int {
    if b <= 0 {
        0
    } else {
        spec_exp_fx(spec_fx_mul(e, spec_ln_fx(b)))
    }
}

/// Fixed-point power.
pub fn pow_fx(b: i64, e: i64) -> (r: i64)
    ensures
        r as int == spec_pow_fx(b as int, e as int),
{
    if b <= 0 {
        0
    } else {
        exp_fx(fx_mul(e, ln_fx(b)))
    }
}

} // verus!
