//! A directional light that is recomputed each frame relative to the
//! camera orientation.

use vstd::prelude::*;

use crate::fx::FX_ONE;
use crate::fx::fx_scale;
use crate::vec3::Vec3;
use crate::vec3::V3i;
use crate::vec3::vec3;

verus! {

/// A directional light: a direction and a constant color.
#[derive(Clone, Copy, Debug)]
pub struct SunLight {
    pub direction: Vec3,
    pub color: Vec3,
}

impl SunLight {
    /// A white light shining down the negative `z` axis.
    pub fn new() -> (r: SunLight)
        ensures
            r.direction@ == (V3i { x: 0, y: 0, z: -fx_scale() }),
            r.color@ == (V3i { x: fx_scale(), y: fx_scale(), z: fx_scale() }),
    {
        SunLight { direction: vec3(0, 0, -FX_ONE), color: vec3(FX_ONE, FX_ONE, FX_ONE) }
    }
}

} // verus!
