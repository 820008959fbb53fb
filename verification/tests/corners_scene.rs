//! Corner rays, the scene composition, and the camera-relative light.

use raymarch_core::camera::Camera;
use raymarch_core::renderer::Renderer;
use raymarch_core::scene::Scene;
use raymarch_core::vec3::{normalize3, vec3, Vec3};
use raymarch_core::FX_ONE;

const S: f64 = 4294967296.0;

fn to_f(v: Vec3) -> (f64, f64, f64) {
    (v.x as f64 / S, v.y as f64 / S, v.z as f64 / S)
}

fn settled_camera() -> Camera {
    let mut cam = Camera::new();
    cam.set_position_and_forward(vec3(0, 0, 2 * FX_ONE), vec3(0, 0, -FX_ONE));
    cam.update_time(10);
    cam
}

#[test]
fn corners_are_sign_symmetric() {
    let cam = settled_camera();
    let c = cam.get_corners();
    let (x0, y0, z0) = to_f(c[0]);
    let (x1, y1, z1) = to_f(c[1]);
    let (x2, y2, z2) = to_f(c[2]);
    let (x3, y3, z3) = to_f(c[3]);
    let tol = 1e-4;
    // The four rays carry the four sign combinations of (x, y).
    assert!(x0 < 0.0 && y0 < 0.0);
    assert!(x1 < 0.0 && y1 > 0.0);
    assert!(x2 > 0.0 && y2 < 0.0);
    assert!(x3 > 0.0 && y3 > 0.0);
    assert!((x0 + x3).abs() < tol && (y0 + y3).abs() < tol && (z0 - z3).abs() < tol);
    assert!((x1 + x2).abs() < tol && (y1 + y2).abs() < tol && (z1 - z2).abs() < tol);
}

#[test]
fn opposite_corners_average_to_the_forward_direction() {
    let cam = settled_camera();
    let c = cam.get_corners();
    let tol = 1e-4;
    for (a, b) in [(c[0], c[3]), (c[1], c[2])] {
        let (ax, ay, az) = to_f(a);
        let (bx, by, bz) = to_f(b);
        let (mx, my, mz) = ((ax + bx) / 2.0, (ay + by) / 2.0, (az + bz) / 2.0);
        let m = (mx * mx + my * my + mz * mz).sqrt();
        // The average of an opposite pair points along the normalized
        // forward direction (0, 0, -1).
        assert!((mx / m).abs() < tol && (my / m).abs() < tol && (mz / m + 1.0).abs() < tol);
    }
}

#[test]
fn corners_are_unit_vectors() {
    let cam = settled_camera();
    for v in cam.get_corners() {
        let (x, y, z) = to_f(v);
        let n = (x * x + y * y + z * z).sqrt();
        assert!((n - 1.0).abs() < 1e-4, "corner length {n}");
    }
}

#[test]
fn corner_rays_honor_the_aspect_ratio() {
    let mut cam = settled_camera();
    cam.set_aspect(2 * FX_ONE, FX_ONE);
    let c = cam.get_corners();
    let (x, y, _) = to_f(c[3]);
    // Twice as wide: the vertical half-extent is halved.
    assert!((y / x - 0.5).abs() < 1e-4);
}

#[test]
fn forward_parallel_to_world_up_degenerates_but_stays_total() {
    // The documented singularity: the cross product with world-up
    // collapses, so the basis degenerates; the call must still return.
    let mut cam = settled_camera();
    cam.set_position_and_forward(vec3(0, 0, 2 * FX_ONE), vec3(0, FX_ONE, 0));
    cam.update_time(20);
    let c = cam.get_corners();
    // With a zero right axis every corner falls back to the normalized
    // forward vector.
    assert_eq!(c[0], vec3(0, FX_ONE, 0));
    assert_eq!(c[3], vec3(0, FX_ONE, 0));
}

#[test]
fn stop_distance_scales_with_the_focal_length() {
    let cam = settled_camera();
    let d = cam.get_stop_distance();
    assert!(((d as f64 / S) - 0.00001).abs() < 1e-7);
}

#[test]
fn scene_init_arms_the_start_pose() {
    let s = Scene::init();
    assert_eq!(s.camera.next_position, vec3(0, 0, 2 * FX_ONE));
    assert_eq!(s.camera.next_forward, vec3(0, 0, -FX_ONE));
    assert!(s.should_update());
    assert_eq!(
        s.light.direction,
        normalize3(&vec3(-FX_ONE, -FX_ONE, -FX_ONE))
    );
    let (lx, ly, lz) = to_f(s.light.direction);
    assert!((lx + 0.57735).abs() < 1e-4 && (ly + 0.57735).abs() < 1e-4 && (lz + 0.57735).abs() < 1e-4);
}

#[test]
fn scene_update_time_keeps_the_light_camera_relative() {
    let mut s = Scene::init();
    s.update_time(10);
    let before = s.light.direction;
    // Orbit the camera; after the next tick the light must follow the
    // camera frame rather than stay world-fixed.
    s.camera.orbit_controls(120 * FX_ONE, 0);
    s.update_time(20);
    assert_ne!(s.light.direction, before);
    let (lx, ly, lz) = to_f(s.light.direction);
    let n = (lx * lx + ly * ly + lz * lz).sqrt();
    assert!((n - 1.0).abs() < 1e-4);
}

#[test]
fn renderer_payload_carries_the_frame() {
    let s = {
        let mut s = Scene::init();
        s.update_time(10);
        s
    };
    let r = Renderer::new();
    let p = r.draw(&s.camera, &s.light);
    assert_eq!(p.uniform.origin, s.camera.position);
    assert_eq!(p.uniform.light_dir, s.light.direction);
    assert_eq!(p.uniform.light_color, s.light.color);
    assert_eq!(p.uniform.stop_distance, s.camera.get_stop_distance());
    assert_eq!(p.corners.to_vec(), s.camera.get_corners().to_vec());
    assert_eq!(p.clear_color[3], 3865470566);
}
