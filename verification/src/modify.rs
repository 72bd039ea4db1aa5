//! Region-scoped editing: a transform is applied to every voxel of a box
//! inside the model, reading the grid as it was before the edit, and the
//! model is then meshed afresh.

use crate::data::VoxelData;
use crate::data::cell_of_index;
use crate::data::copy_voxels;
use crate::layout::lemma_delinearize_linearized;
use crate::layout::lemma_index_in_range;
use crate::layout::lemma_linearize_delinearized;
use crate::math::IVec3;
use crate::mesh::Remeshed;
use crate::mesh::is_remesh_of;
use crate::mesh::mesh_quads;
use crate::shape::shape_linearize;
use crate::voxel::RawVoxel;
use crate::voxel::Voxel;
use crate::voxel::lemma_voxel_round_trip;
use crate::voxel::voxel_of;
use vstd::prelude::*;

verus! {

/// A box region within a model, in voxel space.
#[derive(Clone, Copy, PartialEq, Eq, Debug, Structural)]
pub struct VoxelRegion {
    /// The lower-back-left corner of the region.
    pub origin: IVec3,
    /// The size of the region.
    pub size: IVec3,
}

/// The region of the model to modify.
#[derive(Clone, Copy, PartialEq, Eq, Debug, Structural)]
pub enum VoxelRegionMode {
    /// The entire area of the model.
    All,
    /// A box region within the model, expressed in voxel space.
    Box(VoxelRegion),
}

/// `value` held between `low` and `high`.
pub open spec fn clamp_spec(value: int, low: int, high: int) -> int {
    if value < low {
        low
    } else if value > high {
        high
    } else {
        value
    }
}

/// The origin of a box clamped into a model: each component held between 0
/// and the last cell of its axis.
pub open spec fn clamped_origin(origin: IVec3, model_size: IVec3) -> IVec3 {
    IVec3 {
        x: clamp_spec(origin.x as int, 0, model_size.x - 1) as i32,
        y: clamp_spec(origin.y as int, 0, model_size.y - 1) as i32,
        z: clamp_spec(origin.z as int, 0, model_size.z - 1) as i32,
    }
}

/// The region that a mode stands for in a model of the given size: the whole
/// model, or the box with its origin clamped into the model and its size
/// held between 1 and what is left of the model beyond that origin.
pub open spec fn clamped_region(mode: VoxelRegionMode, model_size: IVec3) -> VoxelRegion {
    match mode {
        VoxelRegionMode::All => VoxelRegion {
            origin: IVec3 { x: 0, y: 0, z: 0 },
            size: model_size,
        },
        VoxelRegionMode::Box(region) => {
            let origin = clamped_origin(region.origin, model_size);
            VoxelRegion {
                origin,
                size: IVec3 {
                    x: clamp_spec(region.size.x as int, 1, model_size.x - origin.x) as i32,
                    y: clamp_spec(region.size.y as int, 1, model_size.y - origin.y) as i32,
                    z: clamp_spec(region.size.z as int, 1, model_size.z - origin.z) as i32,
                },
            }
        },
    }
}

/// Whether a region lies inside a model of the given size and has a cell
/// along every axis.
pub open spec fn region_within(region: VoxelRegion, model_size: IVec3) -> bool {
    &&& 0 <= region.origin.x && 1 <= region.size.x && region.origin.x + region.size.x
        <= model_size.x
    &&& 0 <= region.origin.y && 1 <= region.size.y && region.origin.y + region.size.y
        <= model_size.y
    &&& 0 <= region.origin.z && 1 <= region.size.z && region.origin.z + region.size.z
        <= model_size.z
}

/// Whether the cell `(x, y, z)` lies in a region.
pub open spec fn region_contains(region: VoxelRegion, x: int, y: int, z: int) -> bool {
    &&& region.origin.x <= x < region.origin.x + region.size.x
    &&& region.origin.y <= y < region.origin.y + region.size.y
    &&& region.origin.z <= z < region.origin.z + region.size.z
}

/// Holds a value between two bounds.
fn clamp_component(value: i32, low: i32, high: i32) -> (held: i32)
    requires
        low <= high,
    ensures
        held == clamp_spec(value as int, low as int, high as int),
{
    if value < low {
        low
    } else if value > high {
        high
    } else {
        value
    }
}

impl VoxelRegionMode {
    /// The region that this mode stands for in a model of the given size. A
    /// box that lies partly or wholly outside the model is shrunk to fit,
    /// down to a single cell; a model with no cell along some axis has no
    /// region.
    pub fn clamped(&self, model_size: IVec3) -> (region: VoxelRegion)
        requires
            model_size.x >= 1,
            model_size.y >= 1,
            model_size.z >= 1,
        ensures
            region == clamped_region(*self, model_size),
            region_within(region, model_size),
    {
        match self {
            VoxelRegionMode::All => VoxelRegion {
                origin: IVec3 { x: 0, y: 0, z: 0 },
                size: model_size,
            },
            VoxelRegionMode::Box(region) => {
                let origin = IVec3 {
                    x: clamp_component(region.origin.x, 0, model_size.x - 1),
                    y: clamp_component(region.origin.y, 0, model_size.y - 1),
                    z: clamp_component(region.origin.z, 0, model_size.z - 1),
                };
                let size = IVec3 {
                    x: clamp_component(region.size.x, 1, model_size.x - origin.x),
                    y: clamp_component(region.size.y, 1, model_size.y - origin.y),
                    z: clamp_component(region.size.z, 1, model_size.z - origin.z),
                };
                VoxelRegion { origin, size }
            },
        }
    }
}

impl VoxelRegion {
    /// Create a new region from a center and a half size.
    pub fn from_center(center: IVec3, half_size: IVec3) -> (region: VoxelRegion)
        requires
            i32::MIN <= center.x - half_size.x <= i32::MAX,
            i32::MIN <= center.y - half_size.y <= i32::MAX,
            i32::MIN <= center.z - half_size.z <= i32::MAX,
            i32::MIN <= half_size.x * 2 <= i32::MAX,
            i32::MIN <= half_size.y * 2 <= i32::MAX,
            i32::MIN <= half_size.z * 2 <= i32::MAX,
        ensures
            region.origin.x == center.x - half_size.x,
            region.origin.y == center.y - half_size.y,
            region.origin.z == center.z - half_size.z,
            region.size.x == half_size.x * 2,
            region.size.y == half_size.y * 2,
            region.size.z == half_size.z * 2,
    {
        VoxelRegion {
            origin: IVec3 {
                x: center.x - half_size.x,
                y: center.y - half_size.y,
                z: center.z - half_size.z,
            },
            size: IVec3 { x: half_size.x * 2, y: half_size.y * 2, z: half_size.z * 2 },
        }
    }
}

/// A cell as the voxel-space point handed to a transform.
pub open spec fn point_of(cell: (int, int, int)) -> IVec3 {
    IVec3 { x: cell.0 as i32, y: cell.1 as i32, z: cell.2 as i32 }
}

/// Whether a cell lies in the region and comes before `(x, y, z)` in the
/// order in which the region is walked: x slowest, z fastest.
pub open spec fn walked(region: VoxelRegion, cell: (int, int, int), x: int, y: int, z: int) -> bool {
    &&& region_contains(region, cell.0, cell.1, cell.2)
    &&& cell.0 < x || (cell.0 == x && (cell.1 < y || (cell.1 == y && cell.2 < z)))
}

/// Whether `after` is `before`'s voxel array with the cells of the region
/// walked so far replaced by what the transform gives for them on `before`,
/// and every other cell as it was.
pub open spec fn edited_up_to<F: Fn(IVec3, &Voxel, &VoxelData) -> Voxel>(
    before: &VoxelData,
    after: Seq<RawVoxel>,
    region: VoxelRegion,
    modify: &F,
    x: int,
    y: int,
    z: int,
) -> bool {
    &&& after.len() == before.voxels@.len()
    &&& forall|i: int|
        0 <= i < after.len() ==> if walked(region, cell_of_index(before, i), x, y, z) {
            call_ensures(
                *modify,
                (point_of(cell_of_index(before, i)), &voxel_of(before.voxels@[i]), before),
                voxel_of(#[trigger] after[i]),
            )
        } else {
            after[i] == before.voxels@[i]
        }
}

/// Whether `after` is `before`'s voxel array edited over the whole region:
/// every cell of the region holds what the transform gives for the cell's
/// point, its voxel in `before`, and `before` itself; every other cell,
/// padding included, is as it was.
pub open spec fn edited<F: Fn(IVec3, &Voxel, &VoxelData) -> Voxel>(
    before: &VoxelData,
    after: Seq<RawVoxel>,
    region: VoxelRegion,
    modify: &F,
) -> bool {
    &&& after.len() == before.voxels@.len()
    &&& forall|i: int|
        0 <= i < after.len() ==> if region_contains(
            region,
            cell_of_index(before, i).0,
            cell_of_index(before, i).1,
            cell_of_index(before, i).2,
        ) {
            call_ensures(
                *modify,
                (point_of(cell_of_index(before, i)), &voxel_of(before.voxels@[i]), before),
                voxel_of(#[trigger] after[i]),
            )
        } else {
            after[i] == before.voxels@[i]
        }
}

/// Whether the transform may be called on every cell of the region with the
/// cell's voxel in `data` and `data` itself.
pub open spec fn accepts_region<F: Fn(IVec3, &Voxel, &VoxelData) -> Voxel>(
    data: &VoxelData,
    region: VoxelRegion,
    modify: &F,
) -> bool {
    forall|i: int|
        0 <= i < data.voxels@.len() && region_contains(
            region,
            cell_of_index(data, i).0,
            cell_of_index(data, i).1,
            cell_of_index(data, i).2,
        ) ==> call_requires(
            *modify,
            (point_of(cell_of_index(data, i)), &voxel_of(#[trigger] data.voxels@[i]), data),
        )
}

/// Whether the model has a cell along every axis, so that a region can be
/// clamped into it.
pub open spec fn has_cells(data: &VoxelData) -> bool {
    data.size_spec().x >= 1 && data.size_spec().y >= 1 && data.size_spec().z >= 1
}

/// Runs the transform against every voxel within the region of the model
/// and returns the edited voxel array. Every call of the transform sees the
/// model as it was handed in, so the result does not depend on the order in
/// which the region is walked. A model without cells is returned unchanged.
pub fn modified_voxels<F: Fn(IVec3, &Voxel, &VoxelData) -> Voxel>(
    data: &VoxelData,
    mode: &VoxelRegionMode,
    modify: &F,
) -> (updated: Vec<RawVoxel>)
    requires
        data.wf(),
        has_cells(data) ==> accepts_region(
            data,
            clamped_region(*mode, data.size_spec()),
            modify,
        ),
    ensures
        has_cells(data) ==> edited(
            data,
            updated@,
            clamped_region(*mode, data.size_spec()),
            modify,
        ),
        !has_cells(data) ==> updated@ == data.voxels@,
{
    let mut updated = copy_voxels(&data.voxels);
    let size = data.size();
    if size.x < 1 || size.y < 1 || size.z < 1 {
        return updated;
    }
    let region = mode.clamped(size);
    let lead: u32 = data.padding() / 2;
    let end_x: i32 = region.origin.x + region.size.x;
    let end_y: i32 = region.origin.y + region.size.y;
    let end_z: i32 = region.origin.z + region.size.z;
    let mut x: i32 = region.origin.x;
    while x < end_x
        invariant
            data.wf(),
            has_cells(data),
            size == data.size_spec(),
            lead == data.lead(),
            region_within(region, size),
            accepts_region(data, region, modify),
            end_x == region.origin.x + region.size.x,
            end_y == region.origin.y + region.size.y,
            end_z == region.origin.z + region.size.z,
            region.origin.x <= x <= end_x,
            edited_up_to(
                data,
                updated@,
                region,
                modify,
                x as int,
                region.origin.y as int,
                region.origin.z as int,
            ),
        decreases end_x - x,
    {
        let mut y: i32 = region.origin.y;
        while y < end_y
            invariant
                data.wf(),
                has_cells(data),
                size == data.size_spec(),
                lead == data.lead(),
                region_within(region, size),
                accepts_region(data, region, modify),
                end_x == region.origin.x + region.size.x,
                end_y == region.origin.y + region.size.y,
                end_z == region.origin.z + region.size.z,
                region.origin.x <= x < end_x,
                region.origin.y <= y <= end_y,
                edited_up_to(
                    data,
                    updated@,
                    region,
                    modify,
                    x as int,
                    y as int,
                    region.origin.z as int,
                ),
            decreases end_y - y,
        {
            let mut z: i32 = region.origin.z;
            while z < end_z
                invariant
                    data.wf(),
                    has_cells(data),
                    size == data.size_spec(),
                    lead == data.lead(),
                    region_within(region, size),
                    accepts_region(data, region, modify),
                    end_x == region.origin.x + region.size.x,
                    end_y == region.origin.y + region.size.y,
                    end_z == region.origin.z + region.size.z,
                    region.origin.x <= x < end_x,
                    region.origin.y <= y < end_y,
                    region.origin.z <= z <= end_z,
                    edited_up_to(data, updated@, region, modify, x as int, y as int, z as int),
                decreases end_z - z,
            {
                let ghost dims = data.dims();
                proof {
                    lemma_index_in_range(
                        dims[0] as int,
                        dims[1] as int,
                        dims[2] as int,
                        x + lead,
                        y + lead,
                        z + lead,
                    );
                    lemma_delinearize_linearized(dims, x + lead, y + lead, z + lead);
                }
                let at = shape_linearize(
                    &data.shape,
                    [x as u32 + lead, y as u32 + lead, z as u32 + lead],
                );
                let index = at as usize;
                assert(cell_of_index(data, index as int) == (x as int, y as int, z as int));
                let source = Voxel::from(data.voxels[index]);
                let point = IVec3 { x, y, z };
                assert(point == point_of(cell_of_index(data, index as int)));
                assert(region_contains(region, x as int, y as int, z as int));
                let ghost earlier = updated@;
                let result = modify(point, &source, data);
                updated.set(index, RawVoxel::from(result));
                proof {
                    assert forall|i: int| 0 <= i < updated@.len() implies if walked(
                        region,
                        cell_of_index(data, i),
                        x as int,
                        y as int,
                        z + 1,
                    ) {
                        call_ensures(
                            *modify,
                            (
                                point_of(cell_of_index(data, i)),
                                &voxel_of(data.voxels@[i]),
                                data,
                            ),
                            voxel_of(#[trigger] updated@[i]),
                        )
                    } else {
                        updated@[i] == data.voxels@[i]
                    } by {
                        lemma_linearize_delinearized(dims, i);
                        if i == index as int {
                            assert(voxel_of(updated@[i]) == result);
                        } else {
                            assert(cell_of_index(data, i) != (x as int, y as int, z as int));
                            assert(updated@[i] == earlier[i]);
                        }
                    }
                }
                z = z + 1;
            }
            y = y + 1;
        }
        x = x + 1;
    }
    updated
}

/// What becomes of a model's material after an edit.
#[derive(Clone, Copy, PartialEq, Eq, Debug, Structural)]
pub enum MaterialSwap {
    /// The model stays opaque, or stays translucent: it keeps its material.
    Keep,
    /// The model lost its last translucent voxel: it takes the opaque
    /// material.
    ToOpaque,
    /// The model gained its first translucent voxel: it takes a fresh
    /// translucent material.
    ToTranslucent,
}

/// The material change for a model that was or was not translucent before
/// an edit and is or is not translucent after it.
pub open spec fn material_swap_spec(was_translucent: bool, is_translucent: bool) -> MaterialSwap {
    if was_translucent == is_translucent {
        MaterialSwap::Keep
    } else if is_translucent {
        MaterialSwap::ToTranslucent
    } else {
        MaterialSwap::ToOpaque
    }
}

/// Decides whether an edited model keeps its material or swaps it.
pub fn material_swap(was_translucent: bool, is_translucent: bool) -> (swap: MaterialSwap)
    ensures
        swap == material_swap_spec(was_translucent, is_translucent),
{
    if was_translucent == is_translucent {
        MaterialSwap::Keep
    } else if is_translucent {
        MaterialSwap::ToTranslucent
    } else {
        MaterialSwap::ToOpaque
    }
}

/// The material that a freshly meshed model takes.
#[derive(Clone, Copy, PartialEq, Eq, Debug, Structural)]
pub enum MaterialKind {
    /// The palette's material without transmission.
    Opaque,
    /// The palette's material with the averaged refraction index and the
    /// model's thickness.
    Translucent,
}

/// The material of a model by whether it has a mesh and translucent cells:
/// none without a mesh, translucent with a translucent cell, else opaque.
pub open spec fn material_kind_spec(has_mesh: bool, is_translucent: bool) -> Option<MaterialKind> {
    if !has_mesh {
        None
    } else if is_translucent {
        Some(MaterialKind::Translucent)
    } else {
        Some(MaterialKind::Opaque)
    }
}

/// Decides which material a freshly meshed model takes, if any.
pub fn material_kind<T>(remeshed: &Remeshed<T>) -> (kind: Option<MaterialKind>)
    ensures
        kind == material_kind_spec(
            remeshed.mesh.is_some(),
            remeshed.refraction_indices@.len() > 0,
        ),
{
    if remeshed.mesh.is_none() {
        None
    } else if remeshed.is_translucent() {
        Some(MaterialKind::Translucent)
    } else {
        Some(MaterialKind::Opaque)
    }
}

impl VoxelData {
    /// The thickness of the model as a translucent material sees it: its
    /// smallest extent.
    pub fn thickness(&self) -> (thickness: i32)
        requires
            self.wf(),
        ensures
            thickness == self.size_spec().min_element_spec(),
    {
        self.size().min_element()
    }
}

/// What an edit hands back: the model meshed afresh, and what becomes of
/// its material.
pub struct Modified<T> {
    /// The mesh, refraction indices and density volume of the edited model.
    pub remeshed: Remeshed<T>,
    /// Whether the model keeps its material.
    pub material: MaterialSwap,
}

/// Runs the transform against every voxel within the region of the model,
/// stores the result, and meshes the whole model afresh.
///
/// The transform is handed the position of the current voxel in voxel
/// space, the current voxel, and the model as it was before the edit. The
/// smaller the region is, the less the edit itself costs; the remesh always
/// covers the whole model.
pub fn modify_voxel_model<T: Copy, F: Fn(IVec3, &Voxel, &VoxelData) -> Voxel>(
    data: &mut VoxelData,
    mode: &VoxelRegionMode,
    modify: &F,
    ior_for_voxel: &[Option<T>],
    density_for_voxel: &[Option<T>],
    was_translucent: bool,
) -> (result: Modified<T>)
    requires
        old(data).wf(),
        has_cells(old(data)) ==> accepts_region(
            old(data),
            clamped_region(*mode, old(data).size_spec()),
            modify,
        ),
    ensures
        final(data).wf(),
        final(data).dims() == old(data).dims(),
        final(data).mesh_outer_faces == old(data).mesh_outer_faces,
        has_cells(old(data)) ==> edited(
            old(data),
            final(data).voxels@,
            clamped_region(*mode, old(data).size_spec()),
            modify,
        ),
        !has_cells(old(data)) ==> final(data).voxels@ == old(data).voxels@,
        is_remesh_of(&result.remeshed, final(data), ior_for_voxel@, density_for_voxel@),
        result.material == material_swap_spec(
            was_translucent,
            result.remeshed.refraction_indices@.len() > 0,
        ),
{
    let updated = modified_voxels(data, mode, modify);
    data.voxels = updated;
    let remeshed = data.remesh(ior_for_voxel, density_for_voxel);
    let material = material_swap(was_translucent, remeshed.is_translucent());
    Modified { remeshed, material }
}

/// What an edit means point by point: inside the region, a point of the
/// model holds what the transform gives for the point, the voxel that was
/// there and the model as it was; outside the region it holds what it held.
pub proof fn lemma_edited_by_point<F: Fn(IVec3, &Voxel, &VoxelData) -> Voxel>(
    before: &VoxelData,
    after: &VoxelData,
    region: VoxelRegion,
    modify: &F,
    point: IVec3,
)
    requires
        before.wf(),
        before.contains(point),
        after.dims() == before.dims(),
        after.mesh_outer_faces == before.mesh_outer_faces,
        edited(before, after.voxels@, region, modify),
    ensures
        region_contains(region, point.x as int, point.y as int, point.z as int) ==> call_ensures(
            *modify,
            (point, &before.voxel_at(point), before),
            after.voxel_at(point),
        ),
        !region_contains(region, point.x as int, point.y as int, point.z as int)
            ==> after.voxel_at(point) == before.voxel_at(point),
{
    let dims = before.dims();
    let lead = before.lead();
    before.lemma_index_of(point, point);
    lemma_delinearize_linearized(dims, point.x + lead, point.y + lead, point.z + lead);
    let i = before.index_of(point);
    assert(cell_of_index(before, i) == (point.x as int, point.y as int, point.z as int));
    assert(point_of(cell_of_index(before, i)) == point);
    assert(after.index_of(point) == i);
}

/// Editing a region a second time with a transform that gives the same
/// voxel whatever it is handed changes nothing: the grid after the second
/// pass is the grid after the first, and so are its visible voxels and the
/// quads extracted from them.
pub proof fn lemma_constant_edit_is_idempotent<T, F: Fn(IVec3, &Voxel, &VoxelData) -> Voxel>(
    start: &VoxelData,
    once: &VoxelData,
    twice: &VoxelData,
    region: VoxelRegion,
    modify: &F,
    constant: Voxel,
    ior_for_voxel: Seq<Option<T>>,
    density_for_voxel: Seq<Option<T>>,
)
    requires
        forall|args: (IVec3, &Voxel, &VoxelData), out: Voxel|
            call_ensures(*modify, args, out) ==> out == constant,
        once.dims() == start.dims(),
        once.mesh_outer_faces == start.mesh_outer_faces,
        twice.dims() == start.dims(),
        twice.mesh_outer_faces == start.mesh_outer_faces,
        edited(start, once.voxels@, region, modify),
        edited(once, twice.voxels@, region, modify),
    ensures
        twice.voxels@ == once.voxels@,
        twice.visible_view(ior_for_voxel, density_for_voxel) == once.visible_view(
            ior_for_voxel,
            density_for_voxel,
        ),
        mesh_quads(twice.visible_view(ior_for_voxel, density_for_voxel), twice.dims())
            == mesh_quads(once.visible_view(ior_for_voxel, density_for_voxel), once.dims()),
{
    assert forall|i: int| 0 <= i < once.voxels@.len() implies twice.voxels@[i]
        == once.voxels@[i] by {
        assert(cell_of_index(once, i) == cell_of_index(start, i));
        let cell = cell_of_index(once, i);
        if region_contains(region, cell.0, cell.1, cell.2) {
            assert(voxel_of(once.voxels@[i]) == constant);
            assert(voxel_of(twice.voxels@[i]) == constant);
            lemma_voxel_round_trip(constant, once.voxels@[i]);
            lemma_voxel_round_trip(constant, twice.voxels@[i]);
        }
    }
    assert(twice.voxels@ =~= once.voxels@);
    assert(twice.visible_view(ior_for_voxel, density_for_voxel) =~= once.visible_view(
        ior_for_voxel,
        density_for_voxel,
    ));
}

} // verus!
