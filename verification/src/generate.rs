//! Procedural generation: a grid filled by asking a classifier for the
//! voxel of every cell of the model.

use crate::data::VoxelData;
use crate::data::cell_of_index;
use crate::data::size_fits;
use crate::layout::lemma_delinearize_linearized;
use crate::layout::lemma_index_in_range;
use crate::layout::lemma_linearize_delinearized;
use crate::math::IVec3;
use crate::math::UVec3;
use crate::modify::VoxelRegion;
use crate::modify::region_contains;
use crate::modify::walked;
use crate::shape::shape_linearize;
use crate::voxel::RawVoxel;
use crate::voxel::Voxel;
use crate::voxel::lemma_voxel_round_trip;
use crate::voxel::voxel_of;
use vstd::prelude::*;

verus! {

/// The region that covers a model of the given size.
pub open spec fn whole(size: UVec3) -> VoxelRegion {
    VoxelRegion {
        origin: IVec3 { x: 0, y: 0, z: 0 },
        size: IVec3 { x: size.x as i32, y: size.y as i32, z: size.z as i32 },
    }
}

/// A cell of the model as the unsigned point handed to a classifier.
pub open spec fn cell_point(cell: (int, int, int)) -> UVec3 {
    UVec3 { x: cell.0 as u32, y: cell.1 as u32, z: cell.2 as u32 }
}

/// Whether the cells of the model walked so far hold what the classifier
/// gives for them, and every other cell, padding included, is empty.
pub open spec fn sampled_up_to<F: Fn(UVec3) -> Voxel>(
    data: &VoxelData,
    size: UVec3,
    map: &F,
    x: int,
    y: int,
    z: int,
) -> bool {
    forall|i: int|
        0 <= i < data.voxels@.len() ==> if walked(whole(size), cell_of_index(data, i), x, y, z) {
            call_ensures(
                *map,
                (cell_point(cell_of_index(data, i)),),
                voxel_of(#[trigger] data.voxels@[i]),
            )
        } else {
            data.voxels@[i] == RawVoxel(255)
        }
}

/// Whether every cell of the model holds what the classifier gives for its
/// point, and the padding is empty.
pub open spec fn sampled<F: Fn(UVec3) -> Voxel>(data: &VoxelData, size: UVec3, map: &F) -> bool {
    forall|i: int|
        0 <= i < data.voxels@.len() ==> if region_contains(
            whole(size),
            cell_of_index(data, i).0,
            cell_of_index(data, i).1,
            cell_of_index(data, i).2,
        ) {
            call_ensures(
                *map,
                (cell_point(cell_of_index(data, i)),),
                voxel_of(#[trigger] data.voxels@[i]),
            )
        } else {
            data.voxels@[i] == RawVoxel(255)
        }
}

/// Whether the classifier may be called on every point of a model of the
/// given size.
pub open spec fn classifies<F: Fn(UVec3) -> Voxel>(size: UVec3, map: &F) -> bool {
    forall|point: UVec3|
        point.x < size.x && point.y < size.y && point.z < size.z ==> #[trigger] call_requires(
            *map,
            (point,),
        )
}

/// Builds a model of the given size, with its outer faces meshed, by
/// asking `map` for the voxel of every cell.
pub fn map_to_voxels<F: Fn(UVec3) -> Voxel>(size: UVec3, map: &F) -> (data: VoxelData)
    requires
        size_fits(size, true),
        classifies(size, map),
    ensures
        data.wf(),
        data.mesh_outer_faces,
        data.extent(0) == size.x,
        data.extent(1) == size.y,
        data.extent(2) == size.z,
        sampled(&data, size, map),
{
    let mut data = VoxelData::new(size, true);
    let ghost dims = data.dims();
    proof {
        assert(dims[0] <= 0x4000_0000 && dims[1] <= 0x4000_0000 && dims[2] <= 0x4000_0000)
            by (nonlinear_arith)
            requires
                dims[0] >= 2,
                dims[1] >= 2,
                dims[2] >= 2,
                dims[0] * dims[1] * dims[2] <= 0xFFFF_FFFF,
        ;
    }
    let mut x: u32 = 0;
    while x < size.x
        invariant
            data.wf(),
            data.mesh_outer_faces,
            data.dims() == dims,
            data.extent(0) == size.x,
            data.extent(1) == size.y,
            data.extent(2) == size.z,
            size.x < 0x4000_0000 && size.y < 0x4000_0000 && size.z < 0x4000_0000,
            classifies(size, map),
            x <= size.x,
            sampled_up_to(&data, size, map, x as int, 0, 0),
        decreases size.x - x,
    {
        let mut y: u32 = 0;
        while y < size.y
            invariant
                data.wf(),
                data.mesh_outer_faces,
                data.dims() == dims,
                data.extent(0) == size.x,
                data.extent(1) == size.y,
                data.extent(2) == size.z,
                size.x < 0x4000_0000 && size.y < 0x4000_0000 && size.z < 0x4000_0000,
                classifies(size, map),
                x < size.x,
                y <= size.y,
                sampled_up_to(&data, size, map, x as int, y as int, 0),
            decreases size.y - y,
        {
            let mut z: u32 = 0;
            while z < size.z
                invariant
                    data.wf(),
                    data.mesh_outer_faces,
                    data.dims() == dims,
                    data.extent(0) == size.x,
                    data.extent(1) == size.y,
                    data.extent(2) == size.z,
                    size.x < 0x4000_0000 && size.y < 0x4000_0000 && size.z < 0x4000_0000,
                    classifies(size, map),
                    x < size.x,
                    y < size.y,
                    z <= size.z,
                    sampled_up_to(&data, size, map, x as int, y as int, z as int),
                decreases size.z - z,
            {
                proof {
                    lemma_index_in_range(
                        dims[0] as int,
                        dims[1] as int,
                        dims[2] as int,
                        x + 1,
                        y + 1,
                        z + 1,
                    );
                    lemma_delinearize_linearized(dims, x + 1, y + 1, z + 1);
                }
                let at = shape_linearize(&data.shape, [x + 1, y + 1, z + 1]);
                let index = at as usize;
                assert(cell_of_index(&data, index as int) == (x as int, y as int, z as int));
                let point = UVec3 { x, y, z };
                assert(point == cell_point(cell_of_index(&data, index as int)));
                let voxel = map(point);
                let ghost earlier = data;
                data.voxels.set(index, RawVoxel::from(voxel));
                proof {
                    lemma_voxel_round_trip(voxel, RawVoxel(0));
                    assert forall|i: int| 0 <= i < data.voxels@.len() implies if walked(
                        whole(size),
                        cell_of_index(&data, i),
                        x as int,
                        y as int,
                        z + 1,
                    ) {
                        call_ensures(
                            *map,
                            (cell_point(cell_of_index(&data, i)),),
                            voxel_of(#[trigger] data.voxels@[i]),
                        )
                    } else {
                        data.voxels@[i] == RawVoxel(255)
                    } by {
                        lemma_linearize_delinearized(dims, i);
                        assert(cell_of_index(&data, i) == cell_of_index(&earlier, i));
                        if i != index as int {
                            assert(cell_of_index(&data, i) != (x as int, y as int, z as int));
                            assert(data.voxels@[i] == earlier.voxels@[i]);
                        }
                    }
                }
                z = z + 1;
            }
            y = y + 1;
        }
        x = x + 1;
    }
    data
}

/// Two classifiers that never disagree on the voxel of a point give the
/// same grid: what a model holds depends on the classifier only through
/// the voxels it gives, so fields built in different ways that measure the
/// same at every cell rasterize identically.
pub proof fn lemma_agreeing_classifiers_give_one_grid<F: Fn(UVec3) -> Voxel, G: Fn(UVec3) -> Voxel>(
    one: &VoxelData,
    other: &VoxelData,
    size: UVec3,
    first: &F,
    second: &G,
)
    requires
        one.dims() == other.dims(),
        one.mesh_outer_faces == other.mesh_outer_faces,
        one.voxels@.len() == other.voxels@.len(),
        sampled(one, size, first),
        sampled(other, size, second),
        forall|point: UVec3, a: Voxel, b: Voxel|
            call_ensures(*first, (point,), a) && call_ensures(*second, (point,), b) ==> a == b,
    ensures
        one.voxels@ == other.voxels@,
{
    assert forall|i: int| 0 <= i < one.voxels@.len() implies one.voxels@[i]
        == other.voxels@[i] by {
        assert(cell_of_index(one, i) == cell_of_index(other, i));
        let cell = cell_of_index(one, i);
        if region_contains(whole(size), cell.0, cell.1, cell.2) {
            assert(voxel_of(one.voxels@[i]) == voxel_of(other.voxels@[i]));
            lemma_voxel_round_trip(Voxel(0), one.voxels@[i]);
            lemma_voxel_round_trip(Voxel(0), other.voxels@[i]);
        }
    }
    assert(one.voxels@ =~= other.voxels@);
}

} // verus!
