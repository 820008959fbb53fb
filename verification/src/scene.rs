//! The scene: exactly one camera and one sun light, driven by per-frame
//! time advancement.

use vstd::prelude::*;

use crate::fx::FX_ONE;
use crate::fx::fx_scale;
use crate::camera::Camera;
use crate::camera::pose_position;
use crate::camera::pose_forward;
use crate::camera::flag_after;
use crate::camera::spec_to_global;
use crate::camera::v3_zero;
use crate::light::SunLight;
use crate::three_d::LocalToGlobal;
use crate::vec3::Vec3;
use crate::vec3::V3i;
use crate::vec3::v3_normalize;
use crate::vec3::vec3;
use crate::vec3::normalize3;

verus! {

/// The local direction the sun shines along, relative to the camera.
pub open spec fn sun_local_dir() -> V3i {
    V3i { x: -fx_scale(), y: -fx_scale(), z: -fx_scale() }
}

/// A scene owning one camera and one light.
pub struct Scene {
    pub camera: Camera,
    pub light: SunLight,
}

impl Scene {
    /// The startup scene: a fresh camera armed with an instantaneous
    /// transition to `position (0, 0, 2)`, and the light normalized along
    /// `(-1, -1, -1)`.
    pub fn init() -> (s: Scene)
        ensures
            s.camera.position@ == v3_zero(),
            s.camera.forward@ == (V3i { x: 0, y: 0, z: -fx_scale() }),
            s.camera.prev_position@ == v3_zero(),
            s.camera.prev_forward@ == (V3i { x: 0, y: 0, z: -fx_scale() }),
            s.camera.next_position@ == (V3i { x: 0, y: 0, z: 2 * fx_scale() }),
            s.camera.next_forward@ == (V3i { x: 0, y: 0, z: -fx_scale() }),
            s.camera.t == 2 && s.camera.t_start == 0 && s.camera.t_end == 1,
            s.camera.aspect == FX_ONE,
            s.camera.update_flag == true,
            s.light.direction@ == v3_normalize(sun_local_dir()),
            s.light.color@ == (V3i { x: fx_scale(), y: fx_scale(), z: fx_scale() }),
    {
        let mut camera = Camera::new();
        let fwd = camera.forward;
        camera.set_position_and_forward(vec3(0, 0, 2 * FX_ONE), fwd);
        let mut light = SunLight::new();
        light.direction = normalize3(&vec3(-FX_ONE, -FX_ONE, -FX_ONE));
        Scene { camera, light }
    }

    /// Whether another frame must be scheduled.
    pub fn should_update(&self) -> (r: bool)
        ensures
            r == (self.camera.update_flag || self.camera.t < self.camera.t_end),
    {
        self.camera.should_update()
    }

    /// Advances the camera clock and re-aims the light relative to the
    /// camera's new orientation.
    pub fn update_time(&mut self, t: u64)
        ensures
            final(self).camera.t == t,
            final(self).camera.position@ == pose_position(old(self).camera, t as int),
            final(self).camera.forward@ == pose_forward(old(self).camera, t as int),
            final(self).camera.update_flag == flag_after(old(self).camera, t as int),
            final(self).camera.t_start == old(self).camera.t_start,
            final(self).camera.t_end == old(self).camera.t_end,
            final(self).camera.prev_position == old(self).camera.prev_position,
            final(self).camera.prev_forward == old(self).camera.prev_forward,
            final(self).camera.next_position == old(self).camera.next_position,
            final(self).camera.next_forward == old(self).camera.next_forward,
            final(self).camera.fov == old(self).camera.fov,
            final(self).camera.aspect == old(self).camera.aspect,
            final(self).light.direction@ == v3_normalize(
                spec_to_global(final(self).camera, v3_zero(), sun_local_dir()).1,
            ),
            final(self).light.color == old(self).light.color,
    {
        self.camera.update_time(t);
        let (_, d) = self.camera.to_global(&vec3(0, 0, 0), &vec3(-FX_ONE, -FX_ONE, -FX_ONE));
        self.light.direction = normalize3(&d);
    }
}

} // verus!
