//! The capability of mapping positions and directions from a local frame
//! into world space.

use vstd::prelude::*;

use crate::vec3::Vec3;
use crate::vec3::V3i;

verus! {

/// A frame that can carry local coordinates into the world.
pub trait LocalToGlobal {
    /// The mathematical value of the transform.
    spec fn to_global_spec(&self, position: V3i, direction: V3i) -> (V3i, V3i);

    /// Maps a local position and a local direction into world space.
    fn to_global(&self, position: &Vec3, direction: &Vec3) -> (r: (Vec3, Vec3))
        ensures
            ((r.0)@, (r.1)@) == self.to_global_spec(position@, direction@),
    ;
}

} // verus!
