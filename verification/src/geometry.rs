//! Fixed-point three-component vectors.
//!
//! A `Vec3Fixed` carries a point or a direction of the host scene as three
//! exact integers. By convention positions are in micro-units and direction
//! vectors in milli-units (a unit direction has length about 1000), so a
//! direction scaled by a milli-unit distance lands back in micro-units with
//! no rounding.

use vstd::prelude::*;

verus! {

/// A three-component vector over exact fixed-point integers.
#[derive(Clone, Copy, Debug, PartialEq, Eq, Structural)]
pub struct Vec3Fixed {
    /// Component along the host's X axis.
    pub x: i64,
    /// Component along the host's Y axis (world vertical).
    pub y: i64,
    /// Component along the host's Z axis.
    pub z: i64,
}

impl Vec3Fixed {
    /// Builds a vector from its three components.
    pub fn new(x: i64, y: i64, z: i64) -> (v: Self)
        ensures
            v == (Vec3Fixed { x, y, z }),
    {
        Vec3Fixed { x, y, z }
    }

    /// Component-wise sum.
    pub fn plus(self, other: Self) -> (v: Self)
        requires
            i64::MIN <= self.x + other.x <= i64::MAX,
            i64::MIN <= self.y + other.y <= i64::MAX,
            i64::MIN <= self.z + other.z <= i64::MAX,
        ensures
            v.x == self.x + other.x,
            v.y == self.y + other.y,
            v.z == self.z + other.z,
    {
        Vec3Fixed { x: self.x + other.x, y: self.y + other.y, z: self.z + other.z }
    }

    /// Component-wise scaling by an integer factor.
    pub fn scaled(self, factor: i64) -> (v: Self)
        requires
            i64::MIN <= self.x * factor <= i64::MAX,
            i64::MIN <= self.y * factor <= i64::MAX,
            i64::MIN <= self.z * factor <= i64::MAX,
        ensures
            v.x == self.x * factor,
            v.y == self.y * factor,
            v.z == self.z * factor,
    {
        Vec3Fixed { x: self.x * factor, y: self.y * factor, z: self.z * factor }
    }
}

} // verus!
