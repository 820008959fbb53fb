//! The CPU side of the renderer: assembling the per-frame payload — the
//! four corner rays, the uniform block, and the clear color — that a GPU
//! collaborator uploads. Everything here is plain data; resource handling
//! stays with the collaborator.

use vstd::prelude::*;

use crate::camera::Camera;
use crate::camera::corner_ray;
use crate::camera::FX_STOP_EPS;
use crate::fx::fx_scale;
use crate::fx::spec_fx_mul;
use crate::light::SunLight;
use crate::vec3::Vec3;
use crate::vec3::v3_len;

verus! {

/// The default clear color channel `0.1` in Q31.32.
pub const FX_CLEAR_GRAY: i64 = 429496729;

/// The default clear alpha `0.9` in Q31.32.
pub const FX_CLEAR_ALPHA: i64 = 3865470566;

/// The per-frame uniform block: camera origin, light, and the ray-march
/// stop threshold.
#[derive(Clone, Copy, Debug)]
pub struct UniformData {
    pub origin: Vec3,
    pub light_dir: Vec3,
    pub light_color: Vec3,
    pub stop_distance: i64,
}

/// A complete frame ready for upload.
#[derive(Clone, Copy, Debug)]
pub struct FramePayload {
    pub corners: [Vec3; 4],
    pub uniform: UniformData,
    pub clear_color: [i64; 4],
}

/// Whether a payload is the one frame the given camera and light describe.
pub open spec fn payload_matches(p: FramePayload, camera: Camera, light: SunLight) -> bool {
    &&& (p.corners@[0])@ == corner_ray(camera, -fx_scale(), -fx_scale())
    &&& (p.corners@[1])@ == corner_ray(camera, -fx_scale(), fx_scale())
    &&& (p.corners@[2])@ == corner_ray(camera, fx_scale(), -fx_scale())
    &&& (p.corners@[3])@ == corner_ray(camera, fx_scale(), fx_scale())
    &&& p.uniform.origin == camera.position
    &&& p.uniform.light_dir == light.direction
    &&& p.uniform.light_color == light.color
    &&& p.uniform.stop_distance as int == spec_fx_mul(FX_STOP_EPS as int, v3_len(camera.forward@))
}

/// The CPU-side renderer. The GPU resources live with the collaborator;
/// this half only derives what is drawn.
pub struct Renderer {
}

impl Renderer {
    /// A renderer with nothing to set up on the CPU side.
    pub fn new() -> (r: Renderer) {
        Renderer {  }
    }

    /// The frame for the default clear color.
    pub fn draw(&self, camera: &Camera, light: &SunLight) -> (p: FramePayload)
        ensures
            payload_matches(p, *camera, *light),
            p.clear_color@ == seq![
                FX_CLEAR_GRAY,
                FX_CLEAR_GRAY,
                FX_CLEAR_GRAY,
                FX_CLEAR_ALPHA,
            ],
    {
        self.draw_with_clear_color(camera, light, FX_CLEAR_GRAY, FX_CLEAR_GRAY, FX_CLEAR_GRAY, FX_CLEAR_ALPHA)
    }

    /// The frame for an explicit clear color.
    pub fn draw_with_clear_color(
        &self,
        camera: &Camera,
        light: &SunLight,
        red: i64,
        green: i64,
        blue: i64,
        alpha: i64,
    ) -> (p: FramePayload)
        ensures
            payload_matches(p, *camera, *light),
            p.clear_color@ == seq![red, green, blue, alpha],
    {
        let corners = camera.get_corners();
        let uniform = UniformData {
            origin: camera.position,
            light_dir: light.direction,
            light_color: light.color,
            stop_distance: camera.get_stop_distance(),
        };
        FramePayload { corners, uniform, clear_color: [red, green, blue, alpha] }
    }
}

} // verus!
