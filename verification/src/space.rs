//! The mapping between a model's local space, whose origin is the model's
//! geometric centre, and voxel space, whose origin is the model's minimum
//! corner. Local points are kept in half voxels, so that the centre of a
//! model with odd extents is an integer point.

use crate::data::VoxelData;
use crate::math::HalfVec3;
use crate::math::IVec3;
use vstd::prelude::*;

verus! {

/// Half of `value`, rounded towards zero.
pub open spec fn halved(value: int) -> int {
    if value >= 0 {
        value / 2
    } else {
        -((-value) / 2)
    }
}

/// `value` held inside the range of `i32`.
pub open spec fn saturated(value: int) -> int {
    if value < i32::MIN {
        i32::MIN as int
    } else if value > i32::MAX {
        i32::MAX as int
    } else {
        value
    }
}

/// The voxel coordinate of a local coordinate given in half voxels, along
/// an axis of the given size: the coordinate moved by half the size, cut
/// off towards zero, and held inside the range of `i32`.
pub open spec fn voxel_of_local(local: int, size: int) -> int {
    saturated(halved(local + size))
}

/// The local coordinate, in half voxels, of a voxel coordinate along an
/// axis of the given size.
pub open spec fn local_of_voxel(voxel: int, size: int) -> int {
    2 * voxel - size
}

/// Halves towards zero and saturates one coordinate.
fn voxel_component(local: i64, size: i32) -> (voxel: i32)
    ensures
        voxel == voxel_of_local(local as int, size as int),
{
    let moved: i128 = local as i128 + size as i128;
    let half: i128 = moved / 2;
    assert(half == halved(moved as int));
    if half < -0x8000_0000 {
        -0x8000_0000
    } else if half > 0x7FFF_FFFF {
        0x7FFF_FFFF
    } else {
        half as i32
    }
}

impl VoxelData {
    /// Converts a point in the model's local space, given in half voxels,
    /// to a point in voxel coordinates.
    pub fn local_point_to_voxel_space(&self, local_point: HalfVec3) -> (voxel: IVec3)
        requires
            self.wf(),
        ensures
            voxel.x == voxel_of_local(local_point.x as int, self.size_spec().x as int),
            voxel.y == voxel_of_local(local_point.y as int, self.size_spec().y as int),
            voxel.z == voxel_of_local(local_point.z as int, self.size_spec().z as int),
    {
        let size = self.size();
        IVec3 {
            x: voxel_component(local_point.x, size.x),
            y: voxel_component(local_point.y, size.y),
            z: voxel_component(local_point.z, size.z),
        }
    }

    /// Converts a voxel coordinate to the point in local space, in half
    /// voxels, of the voxel's minimum corner.
    pub fn voxel_coord_to_local_space(&self, voxel_coord: IVec3) -> (local: HalfVec3)
        requires
            self.wf(),
        ensures
            local.x == local_of_voxel(voxel_coord.x as int, self.size_spec().x as int),
            local.y == local_of_voxel(voxel_coord.y as int, self.size_spec().y as int),
            local.z == local_of_voxel(voxel_coord.z as int, self.size_spec().z as int),
    {
        let size = self.size();
        HalfVec3 {
            x: 2 * (voxel_coord.x as i64) - size.x as i64,
            y: 2 * (voxel_coord.y as i64) - size.y as i64,
            z: 2 * (voxel_coord.z as i64) - size.z as i64,
        }
    }
}

/// Going from voxel space to local space and back gives the voxel
/// coordinate again, and so does going back from anywhere in the half of
/// the voxel that lies towards its maximum corner; the model's centre lies
/// in the voxel at half its size.
pub proof fn lemma_voxel_local_round_trip(voxel: int, size: int)
    requires
        0 <= voxel <= i32::MAX,
        0 <= size,
    ensures
        voxel_of_local(local_of_voxel(voxel, size), size) == voxel,
        voxel_of_local(local_of_voxel(voxel, size) + 1, size) == voxel,
        size <= i32::MAX ==> voxel_of_local(0, size) == size / 2,
{
}

} // verus!
