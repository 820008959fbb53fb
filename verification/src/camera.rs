//! The camera: position, orientation, field of view, and a two-keyframe
//! animation state driven by a smoothstep easing curve. Times are
//! milliseconds in `u64`; scalars are Q31.32 fixed point.

use vstd::prelude::*;
use vstd::arithmetic::div_mod::lemma_div_is_ordered;

use crate::fx::FX_ONE;
use crate::fx::fx_scale;
use crate::fx::spec_fx_mul;
use crate::fx::spec_fx_div;
use crate::fx::fx_mul;
use crate::fx::fx_div;
use crate::math::FX_HALF_PI;
use crate::math::spec_tan_fx;
use crate::math::spec_sin_fx;
use crate::math::spec_cos_fx;
use crate::math::spec_exp_fx;
use crate::math::tan_fx;
use crate::math::sin_fx;
use crate::math::cos_fx;
use crate::math::exp_fx;
use crate::fx::spec_sat_sub;
use crate::fx::sat_sub;
use crate::vec3::Vec3;
use crate::vec3::V3i;
use crate::vec3::v3_add;
use crate::vec3::v3_sub;
use crate::vec3::v3_scale;
use crate::vec3::v3_dot;
use crate::vec3::v3_cross;
use crate::vec3::v3_len;
use crate::vec3::v3_normalize;
use crate::vec3::v3_mix;
use crate::vec3::vec3;
use crate::vec3::add3;
use crate::vec3::sub3;
use crate::vec3::scale3;
use crate::vec3::dot3;
use crate::vec3::cross3;
use crate::vec3::length3;
use crate::vec3::normalize3;
use crate::vec3::mix3;
use crate::three_d::LocalToGlobal;

verus! {

/// One half in Q31.32.
pub const FX_HALF: i64 = 0x8000_0000;

/// The zoom rate `0.3` in Q31.32.
pub const FX_ZOOM_RATE: i64 = 1288490188;

/// The orbit scaling divisor `-200` in Q31.32.
pub const FX_NEG_200: i64 = -200 * 0x1_0000_0000;

/// The stop-distance factor `0.00001` in Q31.32.
pub const FX_STOP_EPS: i64 = 42949;

/// The fixed world-up axis.
pub open spec fn v3_up() -> V3i {
    V3i { x: 0, y: fx_scale(), z: 0 }
}

/// The zero vector.
pub open spec fn v3_zero() -> V3i {
    V3i { x: 0, y: 0, z: 0 }
}

/// The smoothstep polynomial `3 u^2 - 2 u^3` on a unit-interval scalar,
/// evaluated exactly over the integers with a single final truncation.
pub open spec fn smooth_step(u: int) -> int {
    (u * u * (3 * fx_scale() - 2 * u)) / (fx_scale() * fx_scale())
}

/// The easing curve: the time is normalized into `[a, b]`, clamped into the
/// unit interval, and passed through the smoothstep polynomial. A window
/// that is empty or runs backward jumps straight to the end value once the
/// time has reached `b`.
pub open spec fn spec_ease(t: int, a: int, b: int) -> int {
    if b <= a {
        if t >= b {
            fx_scale()
        } else {
            0
        }
    } else if t <= a {
        0
    } else if t >= b {
        fx_scale()
    } else {
        smooth_step(((t - a) * fx_scale()) / (b - a))
    }
}

proof fn lemma_smooth_bounds(u: int)
    requires
        0 <= u <= fx_scale(),
    ensures
        0 <= smooth_step(u) <= fx_scale(),
{
    let s = fx_scale();
    let num = u * u * (3 * s - 2 * u);
    assert(0 <= u * u * (3 * s - 2 * u) <= s * s * s) by (nonlinear_arith)
        requires 0 <= u <= s;
    lemma_div_is_ordered(0, num, s * s);
    lemma_div_is_ordered(num, s * s * s, s * s);
    assert((s * s * s) / (s * s) == s) by (nonlinear_arith)
        requires s == 0x1_0000_0000int;
}

/// The easing curve stays within the unit interval.
pub proof fn lemma_ease_within_unit(t: int, a: int, b: int)
    ensures
        0 <= spec_ease(t, a, b) <= fx_scale(),
{
    if b <= a {
    } else if t <= a {
    } else if t >= b {
    } else {
        let u = ((t - a) * fx_scale()) / (b - a);
        assert((t - a) * fx_scale() >= 0 && (t - a) * fx_scale() <= (b - a) * fx_scale())
            by (nonlinear_arith)
            requires 0 <= t - a <= b - a;
        lemma_div_is_ordered(0, (t - a) * fx_scale(), b - a);
        lemma_div_is_ordered((t - a) * fx_scale(), (b - a) * fx_scale(), b - a);
        vstd::arithmetic::div_mod::lemma_div_multiples_vanish(fx_scale(), b - a);
        lemma_smooth_bounds(u);
    }
}

proof fn lemma_smooth_monotone(u1: int, u2: int)
    requires
        0 <= u1 <= u2 <= fx_scale(),
    ensures
        smooth_step(u1) <= smooth_step(u2),
{
    let s = fx_scale();
    assert(u1 * u1 * (3 * s - 2 * u1) <= u2 * u2 * (3 * s - 2 * u2)) by (nonlinear_arith)
        requires 0 <= u1 <= u2 <= s;
    lemma_div_is_ordered(u1 * u1 * (3 * s - 2 * u1), u2 * u2 * (3 * s - 2 * u2), s * s);
}

/// The easing curve is monotone in the time for a forward-running window.
pub proof fn lemma_ease_monotone(t1: int, t2: int, a: int, b: int)
    requires
        a < b,
        t1 <= t2,
    ensures
        spec_ease(t1, a, b) <= spec_ease(t2, a, b),
{
    lemma_ease_within_unit(t1, a, b);
    lemma_ease_within_unit(t2, a, b);
    if a < t1 && t1 < b && a < t2 && t2 < b {
        let n1 = (t1 - a) * fx_scale();
        let n2 = (t2 - a) * fx_scale();
        assert((t1 - a) * fx_scale() <= (t2 - a) * fx_scale() && (t1 - a) * fx_scale() >= 0
            && (t2 - a) * fx_scale() <= (b - a) * fx_scale()) by (nonlinear_arith)
            requires 0 <= t1 - a && t1 <= t2 && t2 - a <= b - a;
        lemma_div_is_ordered(n1, n2, b - a);
        lemma_div_is_ordered(0, n1, b - a);
        lemma_div_is_ordered(n2, (b - a) * fx_scale(), b - a);
        vstd::arithmetic::div_mod::lemma_div_multiples_vanish(fx_scale(), b - a);
        lemma_smooth_monotone(n1 / (b - a), n2 / (b - a));
    }
}

/// The easing curve starts at zero and ends at one.
pub proof fn lemma_ease_endpoints(a: int, b: int)
    requires
        a < b,
    ensures
        spec_ease(a, a, b) == 0,
        spec_ease(b, a, b) == fx_scale(),
{
}

/// The easing curve, on millisecond clocks.
pub fn easing(t: u64, a: u64, b: u64) -> (r: i64)
    ensures
        r as int == spec_ease(t as int, a as int, b as int),
        0 <= r <= FX_ONE,
{
    proof {
        lemma_ease_within_unit(t as int, a as int, b as int);
    }
    if b <= a {
        if t >= b {
            FX_ONE
        } else {
            0
        }
    } else if t <= a {
        0
    } else if t >= b {
        FX_ONE
    } else {
        let num: u128 = ((t - a) as u128) * 0x1_0000_0000u128;
        let den: u128 = (b - a) as u128;
        let uq: u128 = num / den;
        proof {
            lemma_div_is_ordered(0, num as int, den as int);
            assert(num <= den * 0x1_0000_0000) by (nonlinear_arith)
                requires num == ((t - a) as int) * 0x1_0000_0000 && (t - a) as int <= den;
            lemma_div_is_ordered(num as int, den * 0x1_0000_0000, den as int);
            vstd::arithmetic::div_mod::lemma_div_multiples_vanish(0x1_0000_0000, den as int);
            assert(uq <= 0x1_0000_0000u128);
        }
        let u: i64 = uq as i64;
        let nu: u128 = u as u128;
        let c: u128 = 3 * 0x1_0000_0000u128 - 2 * nu;
        proof {
            assert(nu * nu <= 0x1_0000_0000u128 * 0x1_0000_0000u128) by (nonlinear_arith)
                requires 0 <= nu <= 0x1_0000_0000u128;
            assert(nu * nu * c <= 0x1_0000_0000u128 * 0x1_0000_0000u128 * (3
                * 0x1_0000_0000u128)) by (nonlinear_arith)
                requires 0 <= nu <= 0x1_0000_0000u128 && 0 <= c <= 3 * 0x1_0000_0000u128;
        }
        let numerator: u128 = nu * nu * c;
        let q: u128 = numerator / (0x1_0000_0000u128 * 0x1_0000_0000u128);
        proof {
            lemma_smooth_bounds(u as int);
            assert(q as int == smooth_step(u as int));
        }
        q as i64
    }
}

/// The camera. The `forward` vector's length encodes the focal distance and
/// is not unit. `position` and `forward` are the interpolated pose; the
/// `prev`/`next` pairs are the keyframes of the transition in flight over
/// the clock window `[t_start, t_end]`.
#[derive(Clone, Copy, Debug)]
pub struct Camera {
    pub position: Vec3,
    pub forward: Vec3,
    pub fov: i64,
    pub prev_position: Vec3,
    pub next_position: Vec3,
    pub prev_forward: Vec3,
    pub next_forward: Vec3,
    pub t: u64,
    pub t_start: u64,
    pub t_end: u64,
    pub aspect: i64,
    pub update_flag: bool,
}

/// The easing factor of a camera's transition at time `t`.
pub open spec fn ease_fac(cam: Camera, t: int) -> int {
    spec_ease(t, cam.t_start as int, cam.t_end as int)
}

/// The interpolated position at time `t`; the clamped endpoints
/// short-circuit to the keyframes exactly.
pub open spec fn pose_position(cam: Camera, t: int) -> V3i {
    let f = ease_fac(cam, t);
    if f <= 0 {
        cam.prev_position@
    } else if f >= fx_scale() {
        cam.next_position@
    } else {
        v3_mix(cam.prev_position@, cam.next_position@, f)
    }
}

/// The interpolated forward vector at time `t`.
pub open spec fn pose_forward(cam: Camera, t: int) -> V3i {
    let f = ease_fac(cam, t);
    if f <= 0 {
        cam.prev_forward@
    } else if f >= fx_scale() {
        cam.next_forward@
    } else {
        v3_mix(cam.prev_forward@, cam.next_forward@, f)
    }
}

/// The update flag after a tick at time `t`: cleared only by a genuinely
/// interpolated frame, strictly inside the transition window.
pub open spec fn flag_after(cam: Camera, t: int) -> bool {
    let f = ease_fac(cam, t);
    if 0 < f < fx_scale() {
        false
    } else {
        cam.update_flag
    }
}

/// The half-width of the view frustum at focal distance: the length of
/// `forward` times the tangent of half the field of view.
pub open spec fn basis_dx(cam: Camera) -> int {
    spec_fx_mul(v3_len(cam.forward@), spec_tan_fx(spec_fx_mul(FX_HALF as int, cam.fov as int)))
}

/// The scaled right axis of the camera's local basis.
///
/// Open numeric singularity: when `forward` is parallel to the fixed
/// world-up axis the cross product vanishes, the normalization of the zero
/// vector stays zero, and the whole basis degenerates; every ray then
/// collapses onto the normalized forward vector. This is left as the
/// degenerate case rather than masked with an epsilon guard.
pub open spec fn basis_right(cam: Camera) -> V3i {
    v3_scale(v3_normalize(v3_cross(cam.forward@, v3_up())), basis_dx(cam))
}

/// The scaled up axis of the camera's local basis, with the given
/// half-height.
pub open spec fn basis_up(cam: Camera, dy: int) -> V3i {
    v3_scale(v3_normalize(v3_cross(basis_right(cam), cam.forward@)), dy)
}

/// The world-space transform of a local position and direction, using a
/// square frustum (`dy == dx`).
pub open spec fn spec_to_global(cam: Camera, p: V3i, d: V3i) -> (V3i, V3i) {
    let right = basis_right(cam);
    let upv = basis_up(cam, basis_dx(cam));
    let pos = v3_sub(
        v3_add(v3_add(cam.position@, v3_scale(right, p.x)), v3_scale(upv, p.y)),
        v3_scale(cam.forward@, p.z),
    );
    let dir = v3_sub(
        v3_add(v3_scale(right, d.x), v3_scale(upv, d.y)),
        v3_scale(cam.forward@, d.z),
    );
    (pos, dir)
}

/// The un-normalized ray direction through a viewport corner, for signs
/// `sx, sy` in fixed point; the vertical half-extent is divided by the
/// aspect ratio.
pub open spec fn corner_dir(cam: Camera, sx: int, sy: int) -> V3i {
    let right = basis_right(cam);
    let upv = basis_up(cam, spec_fx_div(basis_dx(cam), cam.aspect as int));
    v3_add(v3_add(cam.forward@, v3_scale(right, sx)), v3_scale(upv, sy))
}

/// The normalized ray direction through a viewport corner.
pub open spec fn corner_ray(cam: Camera, sx: int, sy: int) -> V3i {
    v3_normalize(corner_dir(cam, sx, sy))
}

/// The axis-angle rotation of `v` about the normalized `axis`, as the
/// rotation matrix of the Rodrigues form evaluates it.
pub open spec fn spec_rotate(v: V3i, axis: V3i, angle: int) -> V3i {
    let a = v3_normalize(axis);
    let c = spec_cos_fx(angle);
    let s = spec_sin_fx(angle);
    v3_add(
        v3_add(v3_scale(v, c), v3_scale(v3_cross(a, v), s)),
        v3_scale(a, spec_fx_mul(v3_dot(a, v), spec_sat_sub(fx_scale(), c))),
    )
}

/// The forward vector that an orbit by screen deltas `dx, dy` produces: a
/// pitch rotation about `forward x up` followed by an azimuth rotation
/// about the world-up axis, both angles being the deltas scaled by
/// `-1/200`.
pub open spec fn orbit_forward(cam: Camera, dx: int, dy: int) -> V3i {
    let da = spec_fx_div(dx, FX_NEG_200 as int);
    let dp = spec_fx_div(dy, FX_NEG_200 as int);
    spec_rotate(spec_rotate(cam.forward@, v3_cross(cam.forward@, v3_up()), dp), v3_up(), da)
}

/// The zoom factor for a scroll amount: `exp(0.3 * scroll)`.
pub open spec fn zoom_factor(scroll: int) -> int {
    spec_exp_fx(spec_fx_mul(FX_ZOOM_RATE as int, scroll))
}

/// The forward vector after a zoom. Zooming out scales `forward`; zooming
/// in rebuilds it from the normalized direction so it cannot collapse past
/// the estimated surface distance.
pub open spec fn zoom_forward(cam: Camera, scroll: int, distance: int) -> V3i {
    let fac = zoom_factor(scroll);
    let fl = v3_len(cam.forward@);
    let cd = if distance < fl {
        distance
    } else {
        fl
    };
    if fac > fx_scale() {
        v3_scale(cam.forward@, fac)
    } else {
        v3_scale(v3_scale(v3_normalize(cam.forward@), fac), cd)
    }
}

/// The pivot point a zoom orbits about: the eye pushed along the view
/// direction by the clamped distance.
pub open spec fn zoom_center(cam: Camera, scroll: int, distance: int) -> V3i {
    let fl = v3_len(cam.forward@);
    let cd = if distance < fl {
        distance
    } else {
        fl
    };
    v3_add(cam.position@, v3_scale(v3_normalize(cam.forward@), cd))
}

/// Components small enough that combining corner directions cannot
/// saturate.
pub open spec fn v3_in_range(v: V3i) -> bool {
    &&& -0x2000_0000_0000_0000 <= v.x <= 0x2000_0000_0000_0000
    &&& -0x2000_0000_0000_0000 <= v.y <= 0x2000_0000_0000_0000
    &&& -0x2000_0000_0000_0000 <= v.z <= 0x2000_0000_0000_0000
}

/// The un-normalized corner directions are symmetric under the four sign
/// combinations: each pair of opposite corners sums to exactly twice the
/// forward vector, so their average is the forward direction.
pub proof fn lemma_corner_opposites(cam: Camera)
    requires
        v3_in_range(cam.forward@),
        v3_in_range(basis_right(cam)),
        v3_in_range(basis_up(cam, spec_fx_div(basis_dx(cam), cam.aspect as int))),
    ensures
        v3_add(
            corner_dir(cam, fx_scale(), fx_scale()),
            corner_dir(cam, -fx_scale(), -fx_scale()),
        ) == v3_scale(cam.forward@, 2 * fx_scale()),
        v3_add(
            corner_dir(cam, fx_scale(), -fx_scale()),
            corner_dir(cam, -fx_scale(), fx_scale()),
        ) == v3_scale(cam.forward@, 2 * fx_scale()),
{
    let f = cam.forward@;
    let r = basis_right(cam);
    let u = basis_up(cam, spec_fx_div(basis_dx(cam), cam.aspect as int));
    crate::fx::lemma_fx_mul_unit(r.x);
    crate::fx::lemma_fx_mul_unit(r.y);
    crate::fx::lemma_fx_mul_unit(r.z);
    crate::fx::lemma_fx_mul_unit(u.x);
    crate::fx::lemma_fx_mul_unit(u.y);
    crate::fx::lemma_fx_mul_unit(u.z);
    crate::fx::lemma_fx_mul_double(f.x);
    crate::fx::lemma_fx_mul_double(f.y);
    crate::fx::lemma_fx_mul_double(f.z);
}

/// An instantaneous transition's window holds no interior clock tick, so a
/// tick applies the armed pose without clearing the sticky update flag.
pub proof fn lemma_instant_window_keeps_flag(cam: Camera, t: int)
    requires
        cam.t_start == 0,
        cam.t_end == 1,
    ensures
        flag_after(cam, t) == cam.update_flag,
        t >= 1 ==> pose_position(cam, t) == cam.next_position@,
        t >= 1 ==> pose_forward(cam, t) == cam.next_forward@,
{
    if t <= 0 {
    } else {
        assert(t >= 1);
        assert(ease_fac(cam, t) == fx_scale());
    }
}

fn rotate_axis(v: &Vec3, axis: &Vec3, angle: i64) -> (r: Vec3)
    ensures
        r@ == spec_rotate(v@, axis@, angle as int),
{
    let a = normalize3(axis);
    let c = cos_fx(angle);
    let s = sin_fx(angle);
    let t1 = scale3(v, c);
    let t2 = scale3(&cross3(&a, v), s);
    let t3 = scale3(&a, fx_mul(dot3(&a, v), sat_sub(FX_ONE, c)));
    add3(&add3(&t1, &t2), &t3)
}

impl Camera {
    /// A camera at the origin looking down the negative `z` axis, with a
    /// right-angle field of view and a square aspect, already flagged for a
    /// first draw.
    pub fn new() -> (r: Camera)
        ensures
            r.position@ == v3_zero(),
            r.forward@ == (V3i { x: 0, y: 0, z: -fx_scale() }),
            r.prev_position@ == v3_zero(),
            r.prev_forward@ == (V3i { x: 0, y: 0, z: -fx_scale() }),
            r.next_position@ == v3_zero(),
            r.next_forward@ == (V3i { x: 0, y: 0, z: -fx_scale() }),
            r.t == 0 && r.t_start == 0 && r.t_end == 0,
            r.aspect == FX_ONE,
            r.fov == FX_HALF_PI,
            r.update_flag == true,
    {
        Camera {
            position: vec3(0, 0, 0),
            forward: vec3(0, 0, -FX_ONE),
            prev_position: vec3(0, 0, 0),
            prev_forward: vec3(0, 0, -FX_ONE),
            next_position: vec3(0, 0, 0),
            next_forward: vec3(0, 0, -FX_ONE),
            t: 0,
            t_start: 0,
            t_end: 0,
            aspect: FX_ONE,
            fov: FX_HALF_PI,
            update_flag: true,
        }
    }

    /// Advances the clock and recomputes the interpolated pose. The sticky
    /// update flag is cleared only by a tick that lands strictly inside the
    /// transition window.
    pub fn update_time(&mut self, t: u64)
        ensures
            final(self).t == t,
            final(self).position@ == pose_position(*old(self), t as int),
            final(self).forward@ == pose_forward(*old(self), t as int),
            final(self).update_flag == flag_after(*old(self), t as int),
            final(self).t_start == old(self).t_start,
            final(self).t_end == old(self).t_end,
            final(self).prev_position == old(self).prev_position,
            final(self).prev_forward == old(self).prev_forward,
            final(self).next_position == old(self).next_position,
            final(self).next_forward == old(self).next_forward,
            final(self).fov == old(self).fov,
            final(self).aspect == old(self).aspect,
    {
        self.t = t;
        let fac = easing(t, self.t_start, self.t_end);
        if fac <= 0 {
            self.position = self.prev_position;
            self.forward = self.prev_forward;
            return;
        }
        if fac >= FX_ONE {
            self.position = self.next_position;
            self.forward = self.next_forward;
            return;
        }
        let pp = self.prev_position;
        let np = self.next_position;
        let pf = self.prev_forward;
        let nf = self.next_forward;
        self.position = mix3(&pp, &np, fac);
        self.forward = mix3(&pf, &nf, fac);
        self.update_flag = false;
    }

    /// Resets the aspect ratio from a window size; a degenerate dimension
    /// falls back to a square aspect.
    pub fn set_aspect(&mut self, w: i64, h: i64)
        ensures
            final(self).aspect as int == (if w == 0 || h == 0 {
                fx_scale()
            } else {
                spec_fx_div(w as int, h as int)
            }),
            *final(self) == (Camera { aspect: final(self).aspect, ..*old(self) }),
    {
        if w == 0 || h == 0 {
            self.aspect = FX_ONE;
        } else {
            self.aspect = fx_div(w, h);
        }
    }

    /// Arms an instantaneous transition to the given pose: the clock is
    /// forced past the window end so the next tick applies the new
    /// keyframes at once.
    pub fn set_position_and_forward(&mut self, next_position: Vec3, next_forward: Vec3)
        ensures
            final(self).next_position == next_position,
            final(self).next_forward == next_forward,
            final(self).t_start == 0,
            final(self).t_end == 1,
            final(self).t == 2,
            final(self).position == old(self).position,
            final(self).forward == old(self).forward,
            final(self).prev_position == old(self).prev_position,
            final(self).prev_forward == old(self).prev_forward,
            final(self).fov == old(self).fov,
            final(self).aspect == old(self).aspect,
            final(self).update_flag == old(self).update_flag,
    {
        self.next_position = next_position;
        self.next_forward = next_forward;
        self.t_start = 0;
        self.t_end = 1;
        self.t = 2;
    }

    /// Arms a time-extended transition to the given pose. The current
    /// interpolated pose is snapshotted as the new start keyframe, so a
    /// transition superseded mid-flight continues without a visual pop.
    pub fn animate_between(&mut self, next_position: Vec3, next_forward: Vec3, duration: u64)
        requires
            old(self).t + duration <= u64::MAX,
        ensures
            final(self).prev_position@ == pose_position(*old(self), old(self).t as int),
            final(self).prev_forward@ == pose_forward(*old(self), old(self).t as int),
            final(self).position@ == pose_position(*old(self), old(self).t as int),
            final(self).forward@ == pose_forward(*old(self), old(self).t as int),
            final(self).next_position == next_position,
            final(self).next_forward == next_forward,
            final(self).t == old(self).t,
            final(self).t_start == old(self).t,
            final(self).t_end == old(self).t + duration,
            final(self).update_flag == flag_after(*old(self), old(self).t as int),
            final(self).fov == old(self).fov,
            final(self).aspect == old(self).aspect,
    {
        let t0 = self.t;
        self.update_time(t0);
        self.prev_position = self.position;
        self.next_position = next_position;
        self.prev_forward = self.forward;
        self.next_forward = next_forward;
        self.t_start = self.t;
        self.t_end = self.t + duration;
    }

    /// The four normalized corner ray directions, in the order
    /// `(-1,-1), (-1,+1), (+1,-1), (+1,+1)` of the sign pair.
    #[verifier::rlimit(60)]
    pub fn get_corners(&self) -> (r: [Vec3; 4])
        ensures
            (r@[0])@ == corner_ray(*self, -fx_scale(), -fx_scale()),
            (r@[1])@ == corner_ray(*self, -fx_scale(), fx_scale()),
            (r@[2])@ == corner_ray(*self, fx_scale(), -fx_scale()),
            (r@[3])@ == corner_ray(*self, fx_scale(), fx_scale()),
    {
        let foc = length3(&self.forward);
        let dx = fx_mul(foc, tan_fx(fx_mul(FX_HALF, self.fov)));
        let dy = fx_div(dx, self.aspect);
        let right = scale3(&normalize3(&cross3(&self.forward, &vec3(0, FX_ONE, 0))), dx);
        let upv = scale3(&normalize3(&cross3(&right, &self.forward)), dy);
        let c00 = normalize3(
            &add3(&add3(&self.forward, &scale3(&right, -FX_ONE)), &scale3(&upv, -FX_ONE)),
        );
        let c01 = normalize3(
            &add3(&add3(&self.forward, &scale3(&right, -FX_ONE)), &scale3(&upv, FX_ONE)),
        );
        let c10 = normalize3(
            &add3(&add3(&self.forward, &scale3(&right, FX_ONE)), &scale3(&upv, -FX_ONE)),
        );
        let c11 = normalize3(
            &add3(&add3(&self.forward, &scale3(&right, FX_ONE)), &scale3(&upv, FX_ONE)),
        );
        [c00, c01, c10, c11]
    }

    /// A focal-length-relative epsilon used as the ray-march hit threshold.
    pub fn get_stop_distance(&self) -> (r: i64)
        ensures
            r as int == spec_fx_mul(FX_STOP_EPS as int, v3_len(self.forward@)),
    {
        fx_mul(FX_STOP_EPS, length3(&self.forward))
    }

    /// Translates the camera by a local offset, holding `forward` fixed,
    /// through an instantaneous transition.
    pub fn translate_local(&mut self, dx: i64, dy: i64, dz: i64)
        ensures
            final(self).next_position@ == spec_to_global(
                *old(self),
                V3i { x: dx as int, y: dy as int, z: dz as int },
                v3_zero(),
            ).0,
            final(self).next_forward == old(self).forward,
            final(self).t_start == 0 && final(self).t_end == 1 && final(self).t == 2,
            final(self).update_flag == true,
            final(self).position == old(self).position,
            final(self).forward == old(self).forward,
            final(self).prev_position == old(self).prev_position,
            final(self).prev_forward == old(self).prev_forward,
            final(self).fov == old(self).fov,
            final(self).aspect == old(self).aspect,
    {
        let (d, _) = self.to_global(&vec3(dx, dy, dz), &vec3(0, 0, 0));
        let fwd = self.forward;
        self.set_position_and_forward(d, fwd);
        self.update_flag = true;
    }

    /// Orbits the camera about the point `position + forward`, which stays
    /// fixed, from screen-space pointer deltas.
    pub fn orbit_controls(&mut self, dx: i64, dy: i64)
        ensures
            final(self).next_forward@ == orbit_forward(*old(self), dx as int, dy as int),
            final(self).next_position@ == v3_sub(
                v3_add(old(self).position@, old(self).forward@),
                orbit_forward(*old(self), dx as int, dy as int),
            ),
            final(self).t_start == 0 && final(self).t_end == 1 && final(self).t == 2,
            final(self).update_flag == true,
            final(self).position == old(self).position,
            final(self).forward == old(self).forward,
            final(self).prev_position == old(self).prev_position,
            final(self).prev_forward == old(self).prev_forward,
            final(self).fov == old(self).fov,
            final(self).aspect == old(self).aspect,
    {
        let delta_azimuth = fx_div(dx, FX_NEG_200);
        let delta_pitch = fx_div(dy, FX_NEG_200);
        let pitch_axis = cross3(&self.forward, &vec3(0, FX_ONE, 0));
        let f1 = rotate_axis(&self.forward, &pitch_axis, delta_pitch);
        let next_forward = rotate_axis(&f1, &vec3(0, FX_ONE, 0), delta_azimuth);
        let next_position = sub3(&add3(&self.position, &self.forward), &next_forward);
        self.set_position_and_forward(next_position, next_forward);
        self.update_flag = true;
    }

    /// Zooms toward or away from the estimated surface, pivoting about the
    /// clamped center point rather than the eye.
    pub fn zoom(&mut self, scroll_amount: i64, distance: i64)
        ensures
            final(self).next_forward@ == zoom_forward(*old(self), scroll_amount as int, distance as int),
            final(self).next_position@ == v3_sub(
                zoom_center(*old(self), scroll_amount as int, distance as int),
                zoom_forward(*old(self), scroll_amount as int, distance as int),
            ),
            final(self).t_start == 0 && final(self).t_end == 1 && final(self).t == 2,
            final(self).update_flag == true,
            final(self).position == old(self).position,
            final(self).forward == old(self).forward,
            final(self).prev_position == old(self).prev_position,
            final(self).prev_forward == old(self).prev_forward,
            final(self).fov == old(self).fov,
            final(self).aspect == old(self).aspect,
    {
        let fac = exp_fx(fx_mul(FX_ZOOM_RATE, scroll_amount));
        let fl = length3(&self.forward);
        let center_dist = if distance < fl {
            distance
        } else {
            fl
        };
        let center_point = add3(&self.position, &scale3(&normalize3(&self.forward), center_dist));
        let next_forward = if fac > FX_ONE {
            scale3(&self.forward, fac)
        } else {
            scale3(&scale3(&normalize3(&self.forward), fac), center_dist)
        };
        let next_position = sub3(&center_point, &next_forward);
        self.set_position_and_forward(next_position, next_forward);
        self.update_flag = true;
    }

    /// Whether the rendering loop must schedule another frame.
    pub fn should_update(&self) -> (r: bool)
        ensures
            r == (self.update_flag || self.t < self.t_end),
    {
        self.update_flag || self.t < self.t_end
    }
}

impl LocalToGlobal for Camera {
    open spec fn to_global_spec(&self, position: V3i, direction: V3i) -> (V3i, V3i) {
        spec_to_global(*self, position, direction)
    }

    fn to_global(&self, position: &Vec3, direction: &Vec3) -> (r: (Vec3, Vec3)) {
        let foc = length3(&self.forward);
        let dx = fx_mul(foc, tan_fx(fx_mul(FX_HALF, self.fov)));
        let dy = dx;
        let right = scale3(&normalize3(&cross3(&self.forward, &vec3(0, FX_ONE, 0))), dx);
        let upv = scale3(&normalize3(&cross3(&right, &self.forward)), dy);
        let pos = sub3(
            &add3(
                &add3(&self.position, &scale3(&right, position.x)),
                &scale3(&upv, position.y),
            ),
            &scale3(&self.forward, position.z),
        );
        let dir = sub3(
            &add3(&scale3(&right, direction.x), &scale3(&upv, direction.y)),
            &scale3(&self.forward, direction.z),
        );
        (pos, dir)
    }
}

} // verus!
