//! The dense voxel grid: a flat array of stored voxels laid out by a shape,
//! with an optional one-cell border of empty padding on every face.

use crate::layout::lemma_delinearize_linearized;
use crate::layout::lemma_index_in_range;
use crate::layout::lemma_index_injective;
use crate::math::IVec3;
use crate::math::UVec3;
use crate::shape::cell_count;
use crate::shape::delinearized;
use crate::shape::linear_index;
use crate::shape::shape_as_array;
use crate::shape::shape_clone;
use crate::shape::shape_delinearize;
use crate::shape::shape_dims;
use crate::shape::shape_linearize;
use crate::shape::shape_new;
use crate::voxel::RawVoxel;
use crate::voxel::Voxel;
use crate::voxel::lemma_voxel_round_trip;
use crate::voxel::raw_of;
use crate::voxel::voxel_of;
use ndshape::RuntimeShape;
use vstd::prelude::*;

verus! {

/// The error for a voxel-space point that lies outside the model.
#[derive(Clone, Copy, PartialEq, Eq, Debug, Structural)]
pub struct OutOfBoundsError;

/// The voxel data used to create a mesh and a material.
pub struct VoxelData {
    /// The layout of `voxels`, padding included.
    pub shape: RuntimeShape<u32, 3>,
    /// The stored voxels, x varying fastest.
    pub voxels: Vec<RawVoxel>,
    /// Whether the faces on the model's boundary are meshed, in which case
    /// the grid carries one empty cell of padding on every face.
    pub mesh_outer_faces: bool,
}

/// The voxel-space cell stored at position `index` of a grid's array; a
/// padding cell has a coordinate of -1 or of the model's size.
pub open spec fn cell_of_index(data: &VoxelData, index: int) -> (int, int, int) {
    let (x, y, z) = delinearized(data.dims(), index);
    (x - data.lead(), y - data.lead(), z - data.lead())
}

/// A voxel of an ingested model: its cell in the model's own left-handed
/// z-up coordinates, and its stored material index.
#[derive(Clone, Copy, PartialEq, Eq, Debug, Structural)]
pub struct ModelVoxel {
    /// The cell's coordinate to the right.
    pub x: u8,
    /// The cell's coordinate into the depth.
    pub y: u8,
    /// The cell's coordinate upwards.
    pub z: u8,
    /// The stored material index.
    pub i: u8,
}

/// The padding, counted over both sides of an axis, of a grid that does or
/// does not mesh its outer faces.
pub open spec fn padding_of(mesh_outer_faces: bool) -> int {
    if mesh_outer_faces {
        2
    } else {
        0
    }
}

/// Whether a grid of the given model size can be laid out: each padded
/// dimension, the x*y stride and the cell count all fit in `u32`.
pub open spec fn size_fits(size: UVec3, mesh_outer_faces: bool) -> bool {
    let pad = padding_of(mesh_outer_faces);
    &&& size.x + pad <= u32::MAX
    &&& size.y + pad <= u32::MAX
    &&& size.z + pad <= u32::MAX
    &&& (size.x + pad) * (size.y + pad) <= u32::MAX
    &&& (size.x + pad) * (size.y + pad) * (size.z + pad) <= u32::MAX
}

/// The voxel-space point of an ingested voxel in a model `size_x` wide: x
/// is mirrored, and y and z change places, which turns left-handed z-up
/// into right-handed y-up.
pub open spec fn placed(voxel: ModelVoxel, size_x: int) -> (int, int, int) {
    (size_x - 1 - voxel.x, voxel.z as int, voxel.y as int)
}

/// The voxel array `cells` of a grid laid out like `layout` after the
/// voxels have been written to it one after the other, each at its placed
/// point; a voxel whose point lies outside the model is passed over.
pub open spec fn ingested(
    layout: &VoxelData,
    cells: Seq<RawVoxel>,
    size_x: int,
    voxels: Seq<ModelVoxel>,
) -> Seq<RawVoxel>
    decreases voxels.len(),
{
    if voxels.len() == 0 {
        cells
    } else {
        let earlier = ingested(layout, cells, size_x, voxels.drop_last());
        let point = placed(voxels.last(), size_x);
        if point.0 >= 0 && layout.contains(
            IVec3 { x: point.0 as i32, y: point.1 as i32, z: point.2 as i32 },
        ) {
            earlier.update(
                layout.index_of(IVec3 { x: point.0 as i32, y: point.1 as i32, z: point.2 as i32 }),
                RawVoxel(voxels.last().i),
            )
        } else {
            earlier
        }
    }
}

impl VoxelData {
    /// The dimensions of the stored array, padding included.
    pub open spec fn dims(&self) -> Seq<u32> {
        shape_dims(self.shape)
    }

    /// The padding along one axis, both sides together.
    pub open spec fn padding_spec(&self) -> int {
        padding_of(self.mesh_outer_faces)
    }

    /// The padding in front of the model along each axis.
    pub open spec fn lead(&self) -> int {
        if self.mesh_outer_faces {
            1
        } else {
            0
        }
    }

    /// The model's size along axis `axis`, padding excluded.
    pub open spec fn extent(&self, axis: int) -> int {
        self.dims()[axis] - self.padding_spec()
    }

    /// The grid's invariant: the shape has three dimensions whose cell count
    /// fits in `u32` and is the length of the voxel array, and the padding,
    /// where there is any, fits inside the shape and holds only empty
    /// voxels.
    pub open spec fn wf(&self) -> bool {
        &&& self.dims().len() == 3
        &&& self.dims()[0] * self.dims()[1] <= u32::MAX
        &&& cell_count(self.dims()) <= u32::MAX
        &&& self.voxels@.len() == cell_count(self.dims())
        &&& self.extent(0) >= 0
        &&& self.extent(1) >= 0
        &&& self.extent(2) >= 0
        &&& self.padding_is_empty()
    }

    /// Whether a cell of the stored array belongs to the model rather than
    /// to its padding.
    pub open spec fn in_model(&self, cell: (int, int, int)) -> bool {
        &&& 0 <= cell.0 < self.extent(0)
        &&& 0 <= cell.1 < self.extent(1)
        &&& 0 <= cell.2 < self.extent(2)
    }

    /// Whether every cell of the padding is empty.
    pub open spec fn padding_is_empty(&self) -> bool {
        forall|i: int|
            0 <= i < self.voxels@.len() && !self.in_model(cell_of_index(self, i))
                ==> #[trigger] self.voxels@[i] == RawVoxel(255)
    }

    /// The model's size as signed integers: the extents where all three fit
    /// in `i32`, and zero otherwise.
    pub open spec fn size_spec(&self) -> IVec3 {
        if self.extent(0) <= i32::MAX && self.extent(1) <= i32::MAX && self.extent(2) <= i32::MAX {
            IVec3 { x: self.extent(0) as i32, y: self.extent(1) as i32, z: self.extent(2) as i32 }
        } else {
            IVec3 { x: 0, y: 0, z: 0 }
        }
    }

    /// Whether the voxel-space point lies inside the model.
    pub open spec fn contains(&self, point: IVec3) -> bool {
        &&& 0 <= point.x < self.size_spec().x
        &&& 0 <= point.y < self.size_spec().y
        &&& 0 <= point.z < self.size_spec().z
    }

    /// The position in the voxel array of the cell at a voxel-space point.
    pub open spec fn index_of(&self, point: IVec3) -> int {
        linear_index(
            self.dims(),
            point.x + self.lead(),
            point.y + self.lead(),
            point.z + self.lead(),
        )
    }

    /// The voxel at a voxel-space point inside the model.
    pub open spec fn voxel_at(&self, point: IVec3) -> Voxel {
        voxel_of(self.voxels@[self.index_of(point)])
    }

    /// A point inside the model has a position inside the voxel array, and
    /// no other point inside the model shares it.
    pub proof fn lemma_index_of(&self, point: IVec3, other: IVec3)
        requires
            self.wf(),
            self.contains(point),
        ensures
            0 <= self.index_of(point) < self.voxels@.len(),
            self.contains(other) && self.index_of(other) == self.index_of(point) ==> other
                == point,
            cell_of_index(self, self.index_of(point)) == (
                point.x as int,
                point.y as int,
                point.z as int,
            ),
            self.in_model(cell_of_index(self, self.index_of(point))),
    {
        let d = self.dims();
        let l = self.lead();
        lemma_delinearize_linearized(d, point.x + l, point.y + l, point.z + l);
        lemma_index_in_range(
            d[0] as int,
            d[1] as int,
            d[2] as int,
            point.x + l,
            point.y + l,
            point.z + l,
        );
        if self.contains(other) && self.index_of(other) == self.index_of(point) {
            lemma_index_injective(
                d[0] as int,
                d[1] as int,
                d[2] as int,
                other.x + l,
                other.y + l,
                other.z + l,
                point.x + l,
                point.y + l,
                point.z + l,
            );
        }
    }

    /// Whether a grid of the given model size can be laid out.
    pub fn size_is_supported(size: UVec3, mesh_outer_faces: bool) -> (fits: bool)
        ensures
            fits == size_fits(size, mesh_outer_faces),
    {
        let pad: u64 = if mesh_outer_faces {
            2
        } else {
            0
        };
        let limit: u64 = 0xFFFF_FFFF;
        let x: u64 = size.x as u64 + pad;
        let y: u64 = size.y as u64 + pad;
        let z: u64 = size.z as u64 + pad;
        if x > limit || y > limit || z > limit {
            return false;
        }
        assert(x * y <= 0xFFFF_FFFF * 0xFFFF_FFFF) by (nonlinear_arith)
            requires
                x <= 0xFFFF_FFFF,
                y <= 0xFFFF_FFFF,
        ;
        let xy: u64 = x * y;
        if xy > limit {
            return false;
        }
        assert(xy * z <= 0xFFFF_FFFF * 0xFFFF_FFFF) by (nonlinear_arith)
            requires
                xy <= 0xFFFF_FFFF,
                z <= 0xFFFF_FFFF,
        ;
        xy * z <= limit
    }

    /// Checks the grid's invariant. A grid that this library made or
    /// changed meets it; one whose fields were set by hand may not.
    pub fn is_well_formed(&self) -> (ok: bool)
        ensures
            ok == self.wf(),
    {
        let dims = shape_as_array(&self.shape);
        let pad = self.padding();
        if dims[0] < pad || dims[1] < pad || dims[2] < pad {
            return false;
        }
        let limit: u64 = 0xFFFF_FFFF;
        assert(dims[0] * dims[1] <= 0xFFFF_FFFF * 0xFFFF_FFFF) by (nonlinear_arith)
            requires
                0 <= dims[0] <= 0xFFFF_FFFF,
                0 <= dims[1] <= 0xFFFF_FFFF,
        ;
        let xy: u64 = dims[0] as u64 * dims[1] as u64;
        if xy > limit {
            return false;
        }
        assert(xy * dims[2] <= 0xFFFF_FFFF * 0xFFFF_FFFF) by (nonlinear_arith)
            requires
                0 <= xy <= 0xFFFF_FFFF,
                0 <= dims[2] <= 0xFFFF_FFFF,
        ;
        let count: u64 = xy * dims[2] as u64;
        if count > limit || self.voxels.len() as u64 != count {
            return false;
        }
        let lead: u32 = pad / 2;
        let mut i: usize = 0;
        while i < self.voxels.len()
            invariant
                i <= self.voxels@.len(),
                dims@ == self.dims(),
                pad == self.padding_spec(),
                lead == self.lead(),
                dims[0] >= pad && dims[1] >= pad && dims[2] >= pad,
                dims[0] * dims[1] <= u32::MAX,
                self.voxels@.len() == cell_count(self.dims()),
                cell_count(self.dims()) <= u32::MAX,
                forall|k: int|
                    0 <= k < i && !self.in_model(cell_of_index(self, k))
                        ==> #[trigger] self.voxels@[k] == RawVoxel(255),
            decreases self.voxels@.len() - i,
        {
            proof {
                assert(dims[0] > 0 && dims[1] > 0) by (nonlinear_arith)
                    requires
                        dims[0] * dims[1] * dims[2] > 0,
                ;
            }
            let cell = shape_delinearize(&self.shape, i as u32);
            let inside = cell[0] >= lead && cell[0] - lead < dims[0] - pad && cell[1] >= lead
                && cell[1] - lead < dims[1] - pad && cell[2] >= lead && cell[2] - lead < dims[2]
                - pad;
            assert(inside == self.in_model(cell_of_index(self, i as int)));
            if !inside && self.voxels[i].0 != 255 {
                return false;
            }
            i = i + 1;
        }
        true
    }

    /// Returns a new model of the given size in which every cell is empty.
    pub fn new(size: UVec3, mesh_outer_faces: bool) -> (data: VoxelData)
        requires
            size_fits(size, mesh_outer_faces),
        ensures
            data.wf(),
            data.mesh_outer_faces == mesh_outer_faces,
            data.extent(0) == size.x,
            data.extent(1) == size.y,
            data.extent(2) == size.z,
            forall|i: int| 0 <= i < data.voxels@.len() ==> data.voxels@[i] == RawVoxel(255),
            forall|point: IVec3|
                data.contains(point) ==> #[trigger] data.voxel_at(point) == Voxel(0),
    {
        let pad: u32 = if mesh_outer_faces {
            2
        } else {
            0
        };
        let dims: [u32; 3] = [size.x + pad, size.y + pad, size.z + pad];
        let shape = shape_new(dims);
        assert(dims[0] * dims[1] * dims[2] >= 0) by (nonlinear_arith);
        let count: u32 = dims[0] * dims[1] * dims[2];
        let mut voxels: Vec<RawVoxel> = Vec::new();
        let mut i: u32 = 0;
        while i < count
            invariant
                i <= count,
                voxels@.len() == i,
                forall|k: int| 0 <= k < i ==> voxels@[k] == RawVoxel(255),
            decreases count - i,
        {
            voxels.push(RawVoxel::empty());
            i = i + 1;
        }
        let data = VoxelData { shape, voxels, mesh_outer_faces };
        proof {
            assert forall|point: IVec3| data.contains(point) implies #[trigger] data.voxel_at(
                point,
            ) == Voxel(0) by {
                data.lemma_index_of(point, point);
            }
        }
        data
    }

    /// If the outer faces are to be meshed, the mesher requires one voxel of
    /// padding around the edge of the model: two along each axis.
    pub fn padding(&self) -> (pad: u32)
        ensures
            pad == self.padding_spec(),
    {
        if self.mesh_outer_faces {
            2
        } else {
            0
        }
    }

    /// The size of the voxel model, not including the padding that may have
    /// been added if the outer faces are being meshed.
    pub fn size(&self) -> (size: IVec3)
        requires
            self.wf(),
        ensures
            size == self.size_spec(),
    {
        let dims = shape_as_array(&self.shape);
        let pad = self.padding();
        let x: u32 = dims[0] - pad;
        let y: u32 = dims[1] - pad;
        let z: u32 = dims[2] - pad;
        if x <= 0x7FFF_FFFF && y <= 0x7FFF_FFFF && z <= 0x7FFF_FFFF {
            IVec3 { x: x as i32, y: y as i32, z: z as i32 }
        } else {
            IVec3 { x: 0, y: 0, z: 0 }
        }
    }

    /// If the voxel-space `point` is within the bounds of the model, it is
    /// returned with unsigned components.
    pub fn point_in_model(&self, point: IVec3) -> (result: Result<UVec3, OutOfBoundsError>)
        requires
            self.wf(),
        ensures
            self.contains(point) ==> result == Ok::<UVec3, OutOfBoundsError>(
                UVec3 { x: point.x as u32, y: point.y as u32, z: point.z as u32 },
            ),
            !self.contains(point) ==> result == Err::<UVec3, OutOfBoundsError>(OutOfBoundsError),
    {
        let size = self.size();
        if point.x >= size.x || point.y >= size.y || point.z >= size.z {
            return Err(OutOfBoundsError);
        }
        if point.x < 0 || point.y < 0 || point.z < 0 {
            return Err(OutOfBoundsError);
        }
        Ok(UVec3 { x: point.x as u32, y: point.y as u32, z: point.z as u32 })
    }

    /// The position in the voxel array of a point that `point_in_model` let
    /// through.
    fn raw_index(&self, position: UVec3) -> (index: usize)
        requires
            self.wf(),
            position.x < self.extent(0),
            position.y < self.extent(1),
            position.z < self.extent(2),
        ensures
            index == linear_index(
                self.dims(),
                position.x + self.lead(),
                position.y + self.lead(),
                position.z + self.lead(),
            ),
            index < self.voxels@.len(),
    {
        let lead: u32 = self.padding() / 2;
        proof {
            let d = self.dims();
            lemma_index_in_range(
                d[0] as int,
                d[1] as int,
                d[2] as int,
                position.x + lead,
                position.y + lead,
                position.z + lead,
            );
        }
        let index = shape_linearize(
            &self.shape,
            [position.x + lead, position.y + lead, position.z + lead],
        );
        index as usize
    }

    /// Returns the voxel at the point (given in voxel space), or
    /// `OutOfBoundsError` if the point lies outside the model.
    pub fn get_voxel_at_point(&self, position: IVec3) -> (result: Result<Voxel, OutOfBoundsError>)
        requires
            self.wf(),
        ensures
            self.contains(position) ==> result == Ok::<Voxel, OutOfBoundsError>(
                self.voxel_at(position),
            ),
            !self.contains(position) ==> result == Err::<Voxel, OutOfBoundsError>(
                OutOfBoundsError,
            ),
    {
        match self.point_in_model(position) {
            Ok(inside) => {
                let index = self.raw_index(inside);
                let raw = self.voxels[index];
                Ok(Voxel::from(raw))
            },
            Err(e) => Err(e),
        }
    }

    /// Writes a voxel to a point in the model (given in voxel space), or
    /// returns `OutOfBoundsError` and leaves the model as it was if the
    /// point lies outside it.
    pub fn set_voxel(&mut self, voxel: Voxel, point: IVec3) -> (result: Result<
        (),
        OutOfBoundsError,
    >)
        requires
            old(self).wf(),
        ensures
            final(self).wf(),
            final(self).dims() == old(self).dims(),
            final(self).mesh_outer_faces == old(self).mesh_outer_faces,
            old(self).contains(point) ==> result.is_ok() && final(self).voxels@ == old(
                self,
            ).voxels@.update(old(self).index_of(point), raw_of(voxel)),
            !old(self).contains(point) ==> result == Err::<(), OutOfBoundsError>(OutOfBoundsError)
                && final(self).voxels@ == old(self).voxels@,
            old(self).contains(point) ==> final(self).voxel_at(point) == voxel,
            forall|other: IVec3|
                old(self).contains(other) && other != point ==> #[trigger] final(self).voxel_at(
                    other,
                ) == old(self).voxel_at(other),
    {
        match self.point_in_model(point) {
            Ok(inside) => {
                let index = self.raw_index(inside);
                proof {
                    lemma_write_then_read(*self, point, voxel);
                    self.lemma_index_of(point, point);
                }
                let ghost before = *self;
                self.voxels.set(index, RawVoxel::from(voxel));
                proof {
                    assert forall|i: int|
                        0 <= i < self.voxels@.len() && !self.in_model(
                            cell_of_index(self, i),
                        ) implies #[trigger] self.voxels@[i] == RawVoxel(255) by {
                        assert(cell_of_index(self, i) == cell_of_index(&before, i));
                        assert(i != index);
                        assert(self.voxels@[i] == before.voxels@[i]);
                    }
                }
                Ok(())
            },
            Err(e) => Err(e),
        }
    }

    /// Ingests a model given in left-handed z-up coordinates: `size` is the
    /// model's size in its own axes, so the grid's size is `size` with y
    /// and z exchanged. Every cell starts out empty; the voxels are then
    /// written in order, so a later voxel wins over an earlier one at the
    /// same cell.
    pub fn from_model(size: UVec3, voxels: &Vec<ModelVoxel>, mesh_outer_faces: bool) -> (data:
        VoxelData)
        requires
            size_fits(UVec3 { x: size.x, y: size.z, z: size.y }, mesh_outer_faces),
        ensures
            data.wf(),
            data.mesh_outer_faces == mesh_outer_faces,
            data.extent(0) == size.x,
            data.extent(1) == size.z,
            data.extent(2) == size.y,
            data.voxels@ == ingested(
                &data,
                Seq::new(data.voxels@.len(), |i: int| RawVoxel(255)),
                size.x as int,
                voxels@,
            ),
    {
        let mut data = VoxelData::new(UVec3 { x: size.x, y: size.z, z: size.y }, mesh_outer_faces);
        let ghost blank = data.voxels@;
        let ghost layout = data;
        assert(blank =~= Seq::new(blank.len(), |i: int| RawVoxel(255)));
        let mut k: usize = 0;
        while k < voxels.len()
            invariant
                k <= voxels@.len(),
                data.wf(),
                layout.wf(),
                data.dims() == layout.dims(),
                data.mesh_outer_faces == layout.mesh_outer_faces,
                data.mesh_outer_faces == mesh_outer_faces,
                data.extent(0) == size.x,
                data.extent(1) == size.z,
                data.extent(2) == size.y,
                data.voxels@.len() == blank.len(),
                data.voxels@ == ingested(&layout, blank, size.x as int, voxels@.take(k as int)),
            decreases voxels@.len() - k,
        {
            let voxel = voxels[k];
            proof {
                assert(voxels@.take(k + 1).drop_last() == voxels@.take(k as int));
                assert(voxels@.take(k + 1).last() == voxel);
            }
            if (voxel.x as u32) < size.x && size.x - 1 - voxel.x as u32 <= 0x7FFF_FFFF {
                let point = IVec3 {
                    x: (size.x - 1 - voxel.x as u32) as i32,
                    y: voxel.z as i32,
                    z: voxel.y as i32,
                };
                assert(layout.contains(point) == data.contains(point));
                assert(layout.index_of(point) == data.index_of(point));
                proof {
                    lemma_voxel_round_trip(Voxel(0), RawVoxel(voxel.i));
                }
                let _ = data.set_voxel(Voxel::from(RawVoxel(voxel.i)), point);
            } else {
                proof {
                    let point = placed(voxel, size.x as int);
                    if point.0 >= 0 {
                        assert(point.0 > i32::MAX);
                        assert(layout.extent(0) > i32::MAX);
                    }
                }
            }
            k = k + 1;
        }
        proof {
            assert(voxels@.take(k as int) == voxels@);
            assert(ingested(&layout, blank, size.x as int, voxels@) == ingested(
                &data,
                blank,
                size.x as int,
                voxels@,
            )) by {
                lemma_ingested_by_layout(&layout, &data, blank, size.x as int, voxels@);
            }
        }
        data
    }
}

/// A copy of a voxel array.
pub(crate) fn copy_voxels(voxels: &Vec<RawVoxel>) -> (copy: Vec<RawVoxel>)
    ensures
        copy@ == voxels@,
{
    let mut copy: Vec<RawVoxel> = Vec::new();
    let mut i: usize = 0;
    while i < voxels.len()
        invariant
            i <= voxels@.len(),
            copy@ == voxels@.take(i as int),
        decreases voxels@.len() - i,
    {
        copy.push(voxels[i]);
        proof {
            assert(voxels@.take(i + 1) == voxels@.take(i as int).push(voxels@[i as int]));
        }
        i = i + 1;
    }
    proof {
        assert(voxels@.take(i as int) == voxels@);
    }
    copy
}

impl Clone for VoxelData {
    /// A grid of the same layout holding the same voxels.
    fn clone(&self) -> (copy: VoxelData)
        ensures
            copy.dims() == self.dims(),
            copy.voxels@ == self.voxels@,
            copy.mesh_outer_faces == self.mesh_outer_faces,
            self.wf() ==> copy.wf(),
    {
        VoxelData {
            shape: shape_clone(&self.shape),
            voxels: copy_voxels(&self.voxels),
            mesh_outer_faces: self.mesh_outer_faces,
        }
    }
}

/// Ingesting depends on the grid only through its layout.
pub proof fn lemma_ingested_by_layout(
    one: &VoxelData,
    other: &VoxelData,
    cells: Seq<RawVoxel>,
    size_x: int,
    voxels: Seq<ModelVoxel>,
)
    requires
        one.dims() == other.dims(),
        one.mesh_outer_faces == other.mesh_outer_faces,
    ensures
        ingested(one, cells, size_x, voxels) == ingested(other, cells, size_x, voxels),
    decreases voxels.len(),
{
    if voxels.len() > 0 {
        lemma_ingested_by_layout(one, other, cells, size_x, voxels.drop_last());
    }
}

/// Reading a point of the model after writing a voxel there gives that
/// voxel, and every other point of the model reads as before.
pub proof fn lemma_write_then_read(data: VoxelData, point: IVec3, voxel: Voxel)
    requires
        data.wf(),
        data.contains(point),
    ensures
        0 <= data.index_of(point) < data.voxels@.len(),
        voxel_of(data.voxels@.update(data.index_of(point), raw_of(voxel))[data.index_of(point)])
            == voxel,
        forall|other: IVec3|
            data.contains(other) && other != point ==> #[trigger] data.voxels@.update(
                data.index_of(point),
                raw_of(voxel),
            )[data.index_of(other)] == data.voxels@[data.index_of(other)],
{
    data.lemma_index_of(point, point);
    let written = data.voxels@.update(data.index_of(point), raw_of(voxel));
    assert forall|other: IVec3| data.contains(other) && other != point implies #[trigger] written[data.index_of(
        other,
    )] == data.voxels@[data.index_of(other)] by {
        data.lemma_index_of(point, other);
        data.lemma_index_of(other, other);
    }
}

} // verus!
