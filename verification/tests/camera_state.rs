//! The camera state machine: transitions, degenerate aspect, continuity,
//! and the sticky update flag.

use raymarch_core::camera::Camera;
use raymarch_core::vec3::vec3;
use raymarch_core::FX_ONE;

#[test]
fn new_camera_wants_a_first_frame() {
    let cam = Camera::new();
    assert!(cam.should_update());
    assert_eq!(cam.forward, vec3(0, 0, -FX_ONE));
    assert_eq!(cam.aspect, FX_ONE);
}

#[test]
fn set_aspect_of_zero_width_falls_back_to_one() {
    let mut cam = Camera::new();
    cam.set_aspect(0, 3 * FX_ONE);
    assert_eq!(cam.aspect, FX_ONE);
}

#[test]
fn set_aspect_of_zero_height_falls_back_to_one() {
    let mut cam = Camera::new();
    cam.set_aspect(3 * FX_ONE, 0);
    assert_eq!(cam.aspect, FX_ONE);
}

#[test]
fn set_aspect_is_the_ratio() {
    let mut cam = Camera::new();
    cam.set_aspect(16 * FX_ONE, 10 * FX_ONE);
    assert_eq!(cam.aspect, 8 * FX_ONE / 5);
}

#[test]
fn update_time_reaches_the_keyframes_exactly() {
    let mut cam = Camera::new();
    cam.animate_between(vec3(FX_ONE, 0, 0), vec3(0, 0, -2 * FX_ONE), 1000);
    cam.update_time(0);
    assert_eq!(cam.position, vec3(0, 0, 0));
    cam.update_time(1000);
    assert_eq!(cam.position, vec3(FX_ONE, 0, 0));
    assert_eq!(cam.forward, vec3(0, 0, -2 * FX_ONE));
}

#[test]
fn update_time_interpolates_the_midpoint() {
    let mut cam = Camera::new();
    cam.animate_between(vec3(2 * FX_ONE, 0, 0), vec3(0, 0, -FX_ONE), 1000);
    cam.update_time(500);
    // The easing factor at the midpoint is exactly one half.
    assert_eq!(cam.position, vec3(FX_ONE, 0, 0));
}

#[test]
fn animate_between_mid_transition_snapshots_the_interpolated_pose() {
    let mut cam = Camera::new();
    cam.animate_between(vec3(2 * FX_ONE, 0, 0), vec3(0, 0, -FX_ONE), 1000);
    // Land mid-transition, then supersede the animation: the new start
    // keyframe must be the pose interpolated at the moment of the call,
    // not the old keyframe's raw start.
    cam.update_time(500);
    let interpolated = cam.position;
    assert_eq!(interpolated, vec3(FX_ONE, 0, 0));
    cam.animate_between(vec3(-5 * FX_ONE, 0, 0), vec3(0, 0, -FX_ONE), 1000);
    assert_eq!(cam.prev_position, interpolated);
    assert_eq!(cam.t_start, 500);
    assert_eq!(cam.t_end, 1500);
}

#[test]
fn mutators_force_a_redraw() {
    let mut cam = Camera::new();
    // Clear the sticky flag with one genuinely interpolated frame first.
    cam.animate_between(vec3(FX_ONE, 0, 0), vec3(0, 0, -FX_ONE), 1000);
    cam.update_time(500);
    cam.update_time(1000);
    assert!(!cam.should_update());

    cam.orbit_controls(30 * FX_ONE, -14 * FX_ONE);
    assert!(cam.should_update());

    cam.update_time(2000);
    cam.animate_between(vec3(FX_ONE, 0, 0), vec3(0, 0, -FX_ONE), 8);
    cam.update_time(2004);
    cam.update_time(2008);
    assert!(!cam.should_update());
    cam.zoom(FX_ONE, FX_ONE / 10);
    assert!(cam.should_update());

    cam.update_time(3000);
    cam.animate_between(vec3(FX_ONE, 0, 0), vec3(0, 0, -FX_ONE), 8);
    cam.update_time(3004);
    cam.update_time(3008);
    assert!(!cam.should_update());
    cam.translate_local(FX_ONE / 10, 0, 0);
    assert!(cam.should_update());
}

#[test]
fn flag_clears_only_on_an_interior_tick() {
    let mut cam = Camera::new();
    cam.animate_between(vec3(FX_ONE, 0, 0), vec3(0, 0, -FX_ONE), 1000);
    // Ticks that land exactly on the endpoints do not clear the flag.
    cam.update_time(0);
    assert!(cam.should_update());
    cam.update_time(1000);
    assert!(cam.update_flag);
    // One strictly interior tick clears it; past the end the camera rests.
    cam.animate_between(vec3(FX_ONE, 0, 0), vec3(0, 0, -FX_ONE), 1000);
    cam.update_time(1500);
    assert!(!cam.update_flag);
    assert!(cam.should_update());
    cam.update_time(2000);
    assert!(!cam.should_update());
}

#[test]
fn instantaneous_transition_applies_the_pose_but_keeps_the_flag() {
    let mut cam = Camera::new();
    cam.translate_local(FX_ONE, 0, 0);
    assert!(cam.update_flag);
    // The armed window [0, 1] holds no interior millisecond tick, so the
    // pose applies on the next tick while the sticky flag stays set.
    cam.update_time(50);
    assert_eq!(cam.position, cam.next_position);
    assert!(cam.update_flag);
    cam.update_time(51);
    assert!(cam.update_flag);
}

#[test]
fn zoom_in_shortens_forward_and_settles_after_an_animated_frame() {
    let mut cam = Camera::new();
    cam.set_position_and_forward(vec3(0, 0, 2 * FX_ONE), vec3(0, 0, -FX_ONE));
    cam.update_time(10);
    assert_eq!(cam.position, vec3(0, 0, 2 * FX_ONE));
    let len_before = FX_ONE;

    // A negative scroll gives a factor exp(-0.3) < 1: zooming in.
    cam.zoom(-FX_ONE, FX_ONE / 10);
    assert!(cam.should_update());
    cam.update_time(20);
    let f = cam.forward;
    let len_after_sq = ((f.x as i128).pow(2) + (f.y as i128).pow(2) + (f.z as i128).pow(2))
        as f64;
    let len_after = len_after_sq.sqrt();
    assert!(
        (len_after as i64) < len_before,
        "|forward| must strictly decrease, got {len_after}"
    );

    // The instantaneous transition keeps the sticky flag set; it clears
    // once an animated transition passes one interior tick and ends.
    cam.animate_between(cam.position, cam.forward, 100);
    cam.update_time(70);
    cam.update_time(200);
    assert!(!cam.should_update());
}

#[test]
fn zoom_out_scales_forward_up() {
    let mut cam = Camera::new();
    cam.set_position_and_forward(vec3(0, 0, 2 * FX_ONE), vec3(0, 0, -FX_ONE));
    cam.update_time(10);
    cam.zoom(FX_ONE, FX_ONE / 10);
    cam.update_time(20);
    // exp(0.3) is about 1.3499.
    let expected = (1.3498588f64 * 4294967296.0) as i64;
    assert!((-cam.forward.z - expected).abs() < FX_ONE / 10_000);
}

#[test]
fn orbit_keeps_the_target_point_fixed() {
    let mut cam = Camera::new();
    cam.set_position_and_forward(vec3(0, 0, 2 * FX_ONE), vec3(0, 0, -FX_ONE));
    cam.update_time(10);
    let target_before = (
        cam.position.x + cam.forward.x,
        cam.position.y + cam.forward.y,
        cam.position.z + cam.forward.z,
    );
    cam.orbit_controls(40 * FX_ONE, 25 * FX_ONE);
    cam.update_time(20);
    let target_after = (
        cam.position.x + cam.forward.x,
        cam.position.y + cam.forward.y,
        cam.position.z + cam.forward.z,
    );
    assert_eq!(target_before, target_after);
    // The deltas are scaled by -1/200, so the forward vector moved.
    assert!(cam.forward.x != 0 || cam.forward.y != 0);
}

#[test]
fn translate_local_holds_forward_fixed() {
    let mut cam = Camera::new();
    cam.set_position_and_forward(vec3(0, 0, 2 * FX_ONE), vec3(0, 0, -FX_ONE));
    cam.update_time(10);
    let fwd = cam.forward;
    cam.translate_local(0, 0, -FX_ONE / 10);
    cam.update_time(20);
    assert_eq!(cam.forward, fwd);
    // Moving along -z in the local frame walks toward the fractal.
    assert!(cam.position.z < 2 * FX_ONE);
    assert_eq!(cam.position.x, 0);
    assert_eq!(cam.position.y, 0);
}

#[test]
fn a_backward_clock_reinterpolates_without_harm() {
    let mut cam = Camera::new();
    cam.animate_between(vec3(2 * FX_ONE, 0, 0), vec3(0, 0, -FX_ONE), 1000);
    cam.update_time(800);
    let late = cam.position;
    // A smaller clock value than the previous tick simply runs the
    // animation backward.
    cam.update_time(500);
    assert_eq!(cam.position, vec3(FX_ONE, 0, 0));
    assert!(cam.position.x < late.x);
    cam.update_time(0);
    assert_eq!(cam.position, vec3(0, 0, 0));
}
