//! The three-component vector a color takes while it is in a linear
//! color space, with components in the exact fixed-point scalar.

use vstd::prelude::*;
use crate::fixed::fixed_in_range;

verus! {

/// A color expressed as three linear-space components.
#[derive(Clone, Copy, PartialEq, Eq, Structural, Debug)]
pub struct Vec3 {
    pub x: i64,
    pub y: i64,
    pub z: i64,
}

impl Vec3 {
    /// All three components lie in the operating range of the scalar.
    pub open spec fn in_range(self) -> bool {
        fixed_in_range(self.x as int) && fixed_in_range(self.y as int) && fixed_in_range(
            self.z as int,
        )
    }

    /// Build a vector from its three components.
    pub fn new(x: i64, y: i64, z: i64) -> (v: Vec3)
        ensures
            v == (Vec3 { x, y, z }),
    {
        Vec3 { x, y, z }
    }
}

} // verus!
