//! Integer vectors for voxel coordinates and grid sizes.

use vstd::prelude::*;

verus! {

/// A point or size in voxel space with signed components.
#[derive(Clone, Copy, PartialEq, Eq, Debug, Structural)]
pub struct IVec3 {
    pub x: i32,
    pub y: i32,
    pub z: i32,
}

/// A point or size in voxel space with unsigned components.
#[derive(Clone, Copy, PartialEq, Eq, Debug, Structural)]
pub struct UVec3 {
    pub x: u32,
    pub y: u32,
    pub z: u32,
}

/// A point in half-voxel units, so that a position relative to the centre
/// of a model with odd extents stays an integer.
#[derive(Clone, Copy, PartialEq, Eq, Debug, Structural)]
pub struct HalfVec3 {
    pub x: i64,
    pub y: i64,
    pub z: i64,
}

impl IVec3 {
    /// The vector with the given components.
    pub fn new(x: i32, y: i32, z: i32) -> (v: IVec3)
        ensures
            v == (IVec3 { x, y, z }),
    {
        IVec3 { x, y, z }
    }

    /// The vector whose components all equal `value`.
    pub fn splat(value: i32) -> (v: IVec3)
        ensures
            v == (IVec3 { x: value, y: value, z: value }),
    {
        IVec3 { x: value, y: value, z: value }
    }
}

impl IVec3 {
    /// The smallest of the three components.
    pub open spec fn min_element_spec(self) -> i32 {
        if self.x <= self.y && self.x <= self.z {
            self.x
        } else if self.y <= self.z {
            self.y
        } else {
            self.z
        }
    }

    /// The smallest of the three components.
    pub fn min_element(&self) -> (least: i32)
        ensures
            least == self.min_element_spec(),
            least <= self.x && least <= self.y && least <= self.z,
            least == self.x || least == self.y || least == self.z,
    {
        if self.x <= self.y && self.x <= self.z {
            self.x
        } else if self.y <= self.z {
            self.y
        } else {
            self.z
        }
    }
}

impl UVec3 {
    /// The vector with the given components.
    pub fn new(x: u32, y: u32, z: u32) -> (v: UVec3)
        ensures
            v == (UVec3 { x, y, z }),
    {
        UVec3 { x, y, z }
    }

    /// The vector whose components all equal `value`.
    pub fn splat(value: u32) -> (v: UVec3)
        ensures
            v == (UVec3 { x: value, y: value, z: value }),
    {
        UVec3 { x: value, y: value, z: value }
    }
}

} // verus!
