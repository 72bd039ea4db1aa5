//! Surface extraction: the quads that `block_mesh` merges out of a grid's
//! visible voxels, and the triangle mesh built from them.
//!
//! Positions are kept in half-voxel units relative to the model's centre,
//! and texture coordinates as cells of the 16x16 palette atlas, so that the
//! whole mesh is made of integers.

use crate::cloud::cloud_cells;
use crate::cloud::has_cloud_cell;
use crate::data::VoxelData;
use crate::layout::lemma_index_in_range;
use crate::math::HalfVec3;
use crate::math::IVec3;
use crate::math::UVec3;
use crate::shape::cell_count;
use crate::shape::linear_index;
use crate::shape::shape_as_array;
use crate::shape::shape_dims;
use crate::shape::shape_linearize;
use crate::voxel::RawVoxel;
use crate::voxel::Visibility;
use crate::voxel::VisibleVoxel;
use block_mesh::GreedyQuadsBuffer;
use block_mesh::RIGHT_HANDED_Y_UP_CONFIG;
use ndshape::RuntimeShape;
use vstd::prelude::*;

verus! {

/// A rectangle of merged voxel faces: the face direction it belongs to, its
/// minimum voxel, and its width and height along the face's own axes.
#[derive(Clone, Copy, PartialEq, Eq, Debug, Structural)]
pub struct FaceQuad {
    /// The face direction, `0..6`: -x, -y, -z, +x, +y, +z.
    pub face: u8,
    /// The minimum voxel in the quad, in padded grid coordinates.
    pub minimum: UVec3,
    /// The extent along the face's u axis.
    pub width: u32,
    /// The extent along the face's v axis.
    pub height: u32,
}

/// The cell of the 16x16 palette atlas that holds a palette index.
#[derive(Clone, Copy, PartialEq, Eq, Debug, Structural)]
pub struct AtlasCell {
    /// The cell's column, `index % 16`.
    pub column: u8,
    /// The cell's row, `index / 16`.
    pub row: u8,
}

/// A triangle-list mesh with four vertices and six indices per quad.
pub struct QuadMesh {
    /// Three vertex indices per triangle.
    pub indices: Vec<u32>,
    /// Vertex positions relative to the model's centre, in half voxels.
    pub positions: Vec<HalfVec3>,
    /// Vertex normals: the signed unit vector of the quad's face.
    pub normals: Vec<IVec3>,
    /// The atlas cell that each vertex samples its material from.
    pub uvs: Vec<AtlasCell>,
}

/// The sign of the normal of face `face`.
pub open spec fn face_sign(face: int) -> int {
    if face < 3 {
        -1
    } else {
        1
    }
}

/// The axis (0 = x, 1 = y, 2 = z) along the normal of face `face`.
pub open spec fn face_n_axis(face: int) -> int {
    face % 3
}

/// The axis along which the width of a quad of face `face` runs.
pub open spec fn face_u_axis(face: int) -> int {
    if face % 3 == 2 {
        0
    } else {
        2
    }
}

/// The axis along which the height of a quad of face `face` runs.
pub open spec fn face_v_axis(face: int) -> int {
    if face % 3 == 1 {
        0
    } else {
        1
    }
}

/// Whether the corner order of face `face` already winds counter-clockwise
/// when seen from outside.
pub open spec fn face_winds_counter_clockwise(face: int) -> bool {
    face == 0 || face == 4 || face == 5
}

/// Component `axis` of a vector.
pub open spec fn component(v: UVec3, axis: int) -> int {
    if axis == 0 {
        v.x as int
    } else if axis == 1 {
        v.y as int
    } else {
        v.z as int
    }
}

/// Component `axis` of corner `corner` (0..4) of a quad: the minimum voxel,
/// moved one cell along the normal for a positive face, by the width along u
/// for corners 1 and 3, and by the height along v for corners 2 and 3.
pub open spec fn corner_component(quad: FaceQuad, corner: int, axis: int) -> int {
    let face = quad.face as int;
    component(quad.minimum, axis) + (if face_sign(face) > 0 && axis == face_n_axis(face) {
        1int
    } else {
        0int
    }) + (if (corner == 1 || corner == 3) && axis == face_u_axis(face) {
        quad.width as int
    } else {
        0int
    }) + (if (corner == 2 || corner == 3) && axis == face_v_axis(face) {
        quad.height as int
    } else {
        0int
    })
}

/// The signed unit normal of face `face`.
pub open spec fn face_normal(face: int) -> IVec3 {
    IVec3 {
        x: if face_n_axis(face) == 0 {
            face_sign(face) as i32
        } else {
            0
        },
        y: if face_n_axis(face) == 1 {
            face_sign(face) as i32
        } else {
            0
        },
        z: if face_n_axis(face) == 2 {
            face_sign(face) as i32
        } else {
            0
        },
    }
}

/// Which of a quad's four vertices the `slot`-th (0..6) index of its two
/// triangles names.
pub open spec fn triangle_corner(face: int, slot: int) -> int {
    if face_winds_counter_clockwise(face) {
        if slot == 0 {
            0
        } else if slot == 1 || slot == 3 {
            1
        } else if slot == 2 || slot == 5 {
            2
        } else {
            3
        }
    } else {
        if slot == 0 {
            0
        } else if slot == 1 || slot == 4 {
            2
        } else if slot == 2 || slot == 3 {
            1
        } else {
            3
        }
    }
}

/// The quads that `block_mesh::greedy_quads` extracts from `voxels` laid out
/// with dimensions `dims`, over the whole array and with the right-handed
/// y-up faces, listed face by face in the order the crate emits them.
pub uninterp spec fn greedy_quads_of(voxels: Seq<VisibleVoxel>, dims: Seq<u32>) -> Seq<FaceQuad>;

/// `block_mesh::greedy_quads` over the extent `[0, max]` with
/// `RIGHT_HANDED_Y_UP_CONFIG`. The crate asserts that the voxels cover the
/// shape and that the extent is positive, and reads the cells one in from
/// the boundary unchecked, hence dimensions of at least 2. Nothing is
/// claimed of the quads beyond their being a function of the arguments.
#[verifier::external_body]
pub(crate) fn greedy_quads(
    voxels: &Vec<VisibleVoxel>,
    shape: &RuntimeShape<u32, 3>,
    max: [u32; 3],
) -> (quads: Vec<FaceQuad>)
    requires
        shape_dims(*shape).len() == 3,
        shape_dims(*shape)[0] * shape_dims(*shape)[1] <= u32::MAX,
        cell_count(shape_dims(*shape)) <= voxels@.len(),
        voxels@.len() <= u32::MAX,
        forall|axis: int|
            0 <= axis < 3 ==> shape_dims(*shape)[axis] >= 2 && max[axis] == shape_dims(
                *shape,
            )[axis] - 1,
    ensures
        quads@ == greedy_quads_of(voxels@, shape_dims(*shape)),
{
    let mut buffer = GreedyQuadsBuffer::new(voxels.len());
    let faces = &RIGHT_HANDED_Y_UP_CONFIG.faces;
    block_mesh::greedy_quads(voxels, shape, [0; 3], max, faces, &mut buffer);
    let mut quads = Vec::new();
    for (face, group) in buffer.quads.groups.iter().enumerate() {
        for quad in group.iter() {
            let [x, y, z] = quad.minimum;
            let minimum = UVec3 { x, y, z };
            let (width, height) = (quad.width, quad.height);
            quads.push(FaceQuad { face: face as u8, minimum, width, height });
        }
    }
    quads
}

/// `OrientedBlockFace::quad_corners` on a face of `RIGHT_HANDED_Y_UP_CONFIG`:
/// the four corners of a quad, in the order min-u min-v, max-u min-v, min-u
/// max-v, max-u max-v. The crate adds unchecked, so the sums must fit.
#[verifier::external_body]
pub(crate) fn quad_corners(quad: &FaceQuad) -> (corners: [UVec3; 4])
    requires
        quad.face < 6,
        corner_component(*quad, 3, 0) <= u32::MAX,
        corner_component(*quad, 3, 1) <= u32::MAX,
        corner_component(*quad, 3, 2) <= u32::MAX,
    ensures
        forall|corner: int|
            0 <= corner < 4 ==> component(#[trigger] corners[corner], 0) == corner_component(
                *quad,
                corner,
                0,
            ) && component(corners[corner], 1) == corner_component(*quad, corner, 1) && component(
                corners[corner],
                2,
            ) == corner_component(*quad, corner, 2),
{
    let minimum = [quad.minimum.x, quad.minimum.y, quad.minimum.z];
    let (width, height) = (quad.width, quad.height);
    let unoriented = block_mesh::UnorientedQuad { minimum, width, height };
    let face = &RIGHT_HANDED_Y_UP_CONFIG.faces[quad.face as usize];
    face.quad_corners(&unoriented).map(|c| UVec3 { x: c.x, y: c.y, z: c.z })
}

/// `OrientedBlockFace::quad_mesh_indices` on a face of
/// `RIGHT_HANDED_Y_UP_CONFIG`: the six vertex indices of a quad's two
/// triangles, counted from `start`, wound counter-clockwise seen from
/// outside.
#[verifier::external_body]
pub(crate) fn quad_mesh_indices(face: u8, start: u32) -> (indices: [u32; 6])
    requires
        face < 6,
        start + 3 <= u32::MAX,
    ensures
        forall|slot: int|
            0 <= slot < 6 ==> #[trigger] indices[slot] == start + triangle_corner(
                face as int,
                slot,
            ),
{
    RIGHT_HANDED_Y_UP_CONFIG.faces[face as usize].quad_mesh_indices(start)
}

/// `OrientedBlockFace::signed_normal` on a face of
/// `RIGHT_HANDED_Y_UP_CONFIG`: the unit vector of the face's axis, with the
/// face's sign.
#[verifier::external_body]
pub(crate) fn signed_normal(face: u8) -> (normal: IVec3)
    requires
        face < 6,
    ensures
        normal == face_normal(face as int),
{
    let n = RIGHT_HANDED_Y_UP_CONFIG.faces[face as usize].signed_normal();
    IVec3 { x: n.x, y: n.y, z: n.z }
}

/// The entry of a per-index palette table for a stored index, or `None`
/// where the table has no such entry.
pub open spec fn lookup<T>(table: Seq<Option<T>>, index: u8) -> Option<T> {
    if index < table.len() {
        table[index as int]
    } else {
        None
    }
}

/// The visibility of a stored voxel: empty for the empty sentinel,
/// translucent where the palette gives the index a refraction index, empty
/// again where it gives it a cloud density, and opaque otherwise.
pub open spec fn visibility_of<T>(
    raw: RawVoxel,
    ior_for_voxel: Seq<Option<T>>,
    density_for_voxel: Seq<Option<T>>,
) -> Visibility {
    if raw.0 == 255 {
        Visibility::Empty
    } else if lookup(ior_for_voxel, raw.0).is_some() {
        Visibility::Translucent
    } else if lookup(density_for_voxel, raw.0).is_some() {
        Visibility::Empty
    } else {
        Visibility::Opaque
    }
}

/// The refraction indices of the translucent voxels among `voxels`, in
/// storage order, one entry per translucent cell.
pub open spec fn refraction_indices<T>(voxels: Seq<RawVoxel>, ior_for_voxel: Seq<Option<T>>) -> Seq<
    T,
>
    decreases voxels.len(),
{
    if voxels.len() == 0 {
        Seq::empty()
    } else {
        let rest = refraction_indices(voxels.drop_last(), ior_for_voxel);
        let last = voxels.last();
        if last.0 != 255 && lookup(ior_for_voxel, last.0).is_some() {
            rest.push(lookup(ior_for_voxel, last.0).unwrap())
        } else {
            rest
        }
    }
}

/// Looks a stored index up in a per-index palette table.
fn lookup_entry<T: Copy>(table: &[Option<T>], index: u8) -> (entry: Option<T>)
    ensures
        entry == lookup(table@, index),
{
    if (index as usize) < table.len() {
        table[index as usize]
    } else {
        None
    }
}

impl VoxelData {
    /// Every stored voxel with its visibility under the given palette
    /// tables.
    pub open spec fn visible_view<T>(
        &self,
        ior_for_voxel: Seq<Option<T>>,
        density_for_voxel: Seq<Option<T>>,
    ) -> Seq<VisibleVoxel> {
        Seq::new(
            self.voxels@.len(),
            |i: int|
                VisibleVoxel {
                    index: self.voxels@[i].0,
                    visibility: visibility_of(self.voxels@[i], ior_for_voxel, density_for_voxel),
                },
        )
    }

    /// Whether some stored voxel is visible under the given palette tables.
    pub open spec fn has_visible_voxel<T>(
        &self,
        ior_for_voxel: Seq<Option<T>>,
        density_for_voxel: Seq<Option<T>>,
    ) -> bool {
        exists|i: int|
            0 <= i < self.voxels@.len() && visibility_of(
                #[trigger] self.voxels@[i],
                ior_for_voxel,
                density_for_voxel,
            ) != Visibility::Empty
    }

    /// Returns the visibility of each voxel, the refraction indices of the
    /// translucent ones, and whether any voxel is visible at all.
    pub fn visible_voxels<T: Copy>(
        &self,
        ior_for_voxel: &[Option<T>],
        density_for_voxel: &[Option<T>],
    ) -> (result: (Vec<VisibleVoxel>, Vec<T>, bool))
        ensures
            result.0@ == self.visible_view(ior_for_voxel@, density_for_voxel@),
            result.1@ == refraction_indices(self.voxels@, ior_for_voxel@),
            result.2 == self.has_visible_voxel(ior_for_voxel@, density_for_voxel@),
    {
        let mut visible: Vec<VisibleVoxel> = Vec::new();
        let mut refraction: Vec<T> = Vec::new();
        let mut needs_meshing = false;
        let mut i: usize = 0;
        while i < self.voxels.len()
            invariant
                i <= self.voxels@.len(),
                visible@.len() == i,
                forall|k: int|
                    0 <= k < i ==> #[trigger] visible@[k] == (VisibleVoxel {
                        index: self.voxels@[k].0,
                        visibility: visibility_of(
                            self.voxels@[k],
                            ior_for_voxel@,
                            density_for_voxel@,
                        ),
                    }),
                refraction@ == refraction_indices(self.voxels@.take(i as int), ior_for_voxel@),
                needs_meshing == exists|k: int|
                    0 <= k < i && visibility_of(
                        #[trigger] self.voxels@[k],
                        ior_for_voxel@,
                        density_for_voxel@,
                    ) != Visibility::Empty,
            decreases self.voxels@.len() - i,
        {
            let raw = self.voxels[i];
            proof {
                assert(self.voxels@.take(i + 1).drop_last() == self.voxels@.take(i as int));
                assert(self.voxels@.take(i + 1).last() == raw);
            }
            let visibility = if raw.0 == 255 {
                Visibility::Empty
            } else {
                match lookup_entry(ior_for_voxel, raw.0) {
                    Some(ior) => {
                        refraction.push(ior);
                        Visibility::Translucent
                    },
                    None => {
                        if lookup_entry(density_for_voxel, raw.0).is_some() {
                            Visibility::Empty
                        } else {
                            Visibility::Opaque
                        }
                    },
                }
            };
            if visibility != Visibility::Empty {
                needs_meshing = true;
            }
            visible.push(VisibleVoxel { index: raw.0, visibility });
            i = i + 1;
        }
        proof {
            assert(self.voxels@.take(i as int) == self.voxels@);
            assert(visible@ =~= self.visible_view(ior_for_voxel@, density_for_voxel@));
        }
        (visible, refraction, needs_meshing)
    }
}

/// Whether a quad belongs to one of the six faces and lies inside an array
/// with dimensions `dims`.
pub open spec fn quad_fits(quad: FaceQuad, dims: Seq<u32>) -> bool {
    &&& quad.face < 6
    &&& quad.minimum.x < dims[0]
    &&& quad.minimum.y < dims[1]
    &&& quad.minimum.z < dims[2]
    &&& corner_component(quad, 3, 0) <= dims[0]
    &&& corner_component(quad, 3, 1) <= dims[1]
    &&& corner_component(quad, 3, 2) <= dims[2]
}

/// Whether a list of quads can be turned into a mesh: its vertices can be
/// numbered in `u32` and every quad lies inside the array.
pub open spec fn quads_usable(quads: Seq<FaceQuad>, dims: Seq<u32>) -> bool {
    &&& 4 * quads.len() <= u32::MAX
    &&& forall|k: int| 0 <= k < quads.len() ==> quad_fits(#[trigger] quads[k], dims)
}

/// The quads of a grid: those that greedy merging extracts where every
/// dimension of the array is at least 2, and none where the array is too
/// thin to have a cell off its boundary.
pub open spec fn mesh_quads(voxels: Seq<VisibleVoxel>, dims: Seq<u32>) -> Seq<FaceQuad> {
    if dims[0] >= 2 && dims[1] >= 2 && dims[2] >= 2 {
        greedy_quads_of(voxels, dims)
    } else {
        Seq::empty()
    }
}

/// The atlas cell of a palette index.
pub open spec fn atlas_cell_of(index: u8) -> AtlasCell {
    AtlasCell { column: index % 16, row: index / 16 }
}

/// The palette index of a quad: that of the voxel at its minimum corner.
pub open spec fn quad_palette_index(
    data: &VoxelData,
    voxels: Seq<VisibleVoxel>,
    quad: FaceQuad,
) -> u8 {
    voxels[linear_index(
        data.dims(),
        quad.minimum.x as int,
        quad.minimum.y as int,
        quad.minimum.z as int,
    )].index
}

/// Component `axis` of the position of a quad's corner, in half voxels: the
/// corner with the leading padding taken off, measured from the model's
/// centre.
pub open spec fn position_component(
    data: &VoxelData,
    quad: FaceQuad,
    corner: int,
    axis: int,
) -> int {
    2 * (corner_component(quad, corner, axis) - data.lead()) - data.extent(axis)
}

/// The position of a quad's corner, in half voxels from the model's centre.
pub open spec fn vertex_position(data: &VoxelData, quad: FaceQuad, corner: int) -> HalfVec3 {
    HalfVec3 {
        x: position_component(data, quad, corner, 0) as i64,
        y: position_component(data, quad, corner, 1) as i64,
        z: position_component(data, quad, corner, 2) as i64,
    }
}

/// Whether `mesh` is the mesh of `quads`: quad `k` owns vertices `4k..4k+4`,
/// its four corners in order, each with the normal of the quad's face and
/// the atlas cell of the quad's palette index, and indices `6k..6k+6`, its
/// two triangles.
pub open spec fn is_mesh_of(
    mesh: &QuadMesh,
    quads: Seq<FaceQuad>,
    voxels: Seq<VisibleVoxel>,
    data: &VoxelData,
) -> bool {
    &&& mesh.positions@.len() == 4 * quads.len()
    &&& mesh.normals@.len() == 4 * quads.len()
    &&& mesh.uvs@.len() == 4 * quads.len()
    &&& mesh.indices@.len() == 6 * quads.len()
    &&& forall|v: int|
        0 <= v < 4 * quads.len() ==> #[trigger] mesh.positions@[v] == vertex_position(
            data,
            quads[v / 4],
            v % 4,
        )
    &&& forall|v: int|
        0 <= v < 4 * quads.len() ==> #[trigger] mesh.normals@[v] == face_normal(
            quads[v / 4].face as int,
        )
    &&& forall|v: int|
        0 <= v < 4 * quads.len() ==> #[trigger] mesh.uvs@[v] == atlas_cell_of(
            quad_palette_index(data, voxels, quads[v / 4]),
        )
    &&& forall|i: int|
        0 <= i < 6 * quads.len() ==> #[trigger] mesh.indices@[i] == 4 * (i / 6) + triangle_corner(
            quads[i / 6].face as int,
            i % 6,
        )
}

/// The atlas cell of a palette index: sixteen cells to a row.
pub fn atlas_cell(index: u8) -> (cell: AtlasCell)
    ensures
        cell == atlas_cell_of(index),
{
    AtlasCell { column: index % 16, row: index / 16 }
}

/// Whether every quad of the list lies inside the array and the list's
/// vertices can be numbered in `u32`.
pub fn quads_are_usable(quads: &Vec<FaceQuad>, dims: [u32; 3]) -> (usable: bool)
    ensures
        usable == quads_usable(quads@, dims@),
{
    if quads.len() > 0x3FFF_FFFF {
        return false;
    }
    let mut k: usize = 0;
    while k < quads.len()
        invariant
            k <= quads@.len(),
            forall|j: int| 0 <= j < k ==> quad_fits(#[trigger] quads@[j], dims@),
        decreases quads@.len() - k,
    {
        let quad = quads[k];
        if quad.face >= 6 || quad.minimum.x >= dims[0] || quad.minimum.y >= dims[1]
            || quad.minimum.z >= dims[2] {
            return false;
        }
        let n: u8 = quad.face % 3;
        let step: u64 = if quad.face >= 3 {
            1
        } else {
            0
        };
        let w: u64 = quad.width as u64;
        let h: u64 = quad.height as u64;
        let x: u64 = quad.minimum.x as u64 + (if n == 0 {
            step
        } else if n == 2 {
            w
        } else {
            h
        });
        let y: u64 = quad.minimum.y as u64 + (if n == 1 {
            step
        } else {
            h
        });
        let z: u64 = quad.minimum.z as u64 + (if n == 2 {
            step
        } else {
            w
        });
        if x > dims[0] as u64 || y > dims[1] as u64 || z > dims[2] as u64 {
            return false;
        }
        k = k + 1;
    }
    true
}

/// Builds the mesh of a list of quads that lie inside the grid's array.
pub fn build_mesh(quads: &Vec<FaceQuad>, voxels: &Vec<VisibleVoxel>, data: &VoxelData) -> (mesh:
    QuadMesh)
    requires
        data.wf(),
        voxels@.len() == data.voxels@.len(),
        quads_usable(quads@, data.dims()),
    ensures
        is_mesh_of(&mesh, quads@, voxels@, data),
{
    let dims = shape_as_array(&data.shape);
    let pad: i64 = data.padding() as i64;
    let lead: i64 = pad / 2;
    let mut mesh = QuadMesh {
        indices: Vec::new(),
        positions: Vec::new(),
        normals: Vec::new(),
        uvs: Vec::new(),
    };
    let mut k: usize = 0;
    while k < quads.len()
        invariant
            k <= quads@.len(),
            data.wf(),
            dims@ == data.dims(),
            pad == data.padding_spec(),
            lead == data.lead(),
            voxels@.len() == data.voxels@.len(),
            quads_usable(quads@, data.dims()),
            is_mesh_of(&mesh, quads@.take(k as int), voxels@, data),
        decreases quads@.len() - k,
    {
        let quad = quads[k];
        assert(quad_fits(quad, data.dims()));
        proof {
            lemma_index_in_range(
                dims[0] as int,
                dims[1] as int,
                dims[2] as int,
                quad.minimum.x as int,
                quad.minimum.y as int,
                quad.minimum.z as int,
            );
        }
        let at = shape_linearize(&data.shape, [quad.minimum.x, quad.minimum.y, quad.minimum.z]);
        let cell = atlas_cell(voxels[at as usize].index);
        let normal = signed_normal(quad.face);
        let corners = quad_corners(&quad);
        let start: u32 = (4 * k) as u32;
        let triangles = quad_mesh_indices(quad.face, start);
        let ghost before = mesh;
        let mut corner: usize = 0;
        while corner < 4
            invariant
                corner <= 4,
                k < quads@.len(),
                quad == quads@[k as int],
                quad_fits(quad, data.dims()),
                data.wf(),
                dims@ == data.dims(),
                pad == data.padding_spec(),
                lead == data.lead(),
                mesh.indices@ == before.indices@,
                mesh.positions@.len() == 4 * k + corner,
                mesh.normals@.len() == 4 * k + corner,
                mesh.uvs@.len() == 4 * k + corner,
                forall|v: int|
                    0 <= v < 4 * k ==> #[trigger] mesh.positions@[v] == before.positions@[v],
                forall|v: int| 0 <= v < 4 * k ==> #[trigger] mesh.normals@[v] == before.normals@[v],
                forall|v: int| 0 <= v < 4 * k ==> #[trigger] mesh.uvs@[v] == before.uvs@[v],
                before.positions@.len() == 4 * k,
                before.normals@.len() == 4 * k,
                before.uvs@.len() == 4 * k,
                forall|v: int|
                    4 * k <= v < 4 * k + corner ==> #[trigger] mesh.positions@[v]
                        == vertex_position(data, quad, v - 4 * k),
                forall|v: int| 4 * k <= v < 4 * k + corner ==> #[trigger] mesh.normals@[v] == normal,
                forall|v: int| 4 * k <= v < 4 * k + corner ==> #[trigger] mesh.uvs@[v] == cell,
                forall|c: int|
                    0 <= c < 4 ==> component(#[trigger] corners[c], 0) == corner_component(
                        quad,
                        c,
                        0,
                    ) && component(corners[c], 1) == corner_component(quad, c, 1) && component(
                        corners[c],
                        2,
                    ) == corner_component(quad, c, 2),
            decreases 4 - corner,
        {
            let at_corner = corners[corner];
            assert(component(at_corner, 0) == corner_component(quad, corner as int, 0));
            assert(component(at_corner, 1) == corner_component(quad, corner as int, 1));
            assert(component(at_corner, 2) == corner_component(quad, corner as int, 2));
            assert(corner_component(quad, corner as int, 0) <= corner_component(quad, 3, 0));
            assert(corner_component(quad, corner as int, 1) <= corner_component(quad, 3, 1));
            assert(corner_component(quad, corner as int, 2) <= corner_component(quad, 3, 2));
            let position = HalfVec3 {
                x: 2 * (at_corner.x as i64 - lead) - (dims[0] as i64 - pad),
                y: 2 * (at_corner.y as i64 - lead) - (dims[1] as i64 - pad),
                z: 2 * (at_corner.z as i64 - lead) - (dims[2] as i64 - pad),
            };
            mesh.positions.push(position);
            mesh.normals.push(normal);
            mesh.uvs.push(cell);
            corner = corner + 1;
        }
        let mut slot: usize = 0;
        while slot < 6
            invariant
                slot <= 6,
                mesh.positions@.len() == 4 * k + 4,
                mesh.normals@.len() == 4 * k + 4,
                mesh.uvs@.len() == 4 * k + 4,
                mesh.indices@.len() == 6 * k + slot,
                before.indices@.len() == 6 * k,
                forall|i: int| 0 <= i < 6 * k ==> #[trigger] mesh.indices@[i] == before.indices@[i],
                forall|i: int|
                    6 * k <= i < 6 * k + slot ==> #[trigger] mesh.indices@[i] == start
                        + triangle_corner(quad.face as int, i - 6 * k),
                forall|s: int|
                    0 <= s < 6 ==> #[trigger] triangles[s] == start + triangle_corner(
                        quad.face as int,
                        s,
                    ),
                forall|v: int|
                    0 <= v < 4 * k ==> #[trigger] mesh.positions@[v] == before.positions@[v],
                forall|v: int| 0 <= v < 4 * k ==> #[trigger] mesh.normals@[v] == before.normals@[v],
                forall|v: int| 0 <= v < 4 * k ==> #[trigger] mesh.uvs@[v] == before.uvs@[v],
                before.positions@.len() == 4 * k,
                before.normals@.len() == 4 * k,
                before.uvs@.len() == 4 * k,
                forall|v: int|
                    4 * k <= v < 4 * k + 4 ==> #[trigger] mesh.positions@[v] == vertex_position(
                        data,
                        quad,
                        v - 4 * k,
                    ),
                forall|v: int| 4 * k <= v < 4 * k + 4 ==> #[trigger] mesh.normals@[v] == normal,
                forall|v: int| 4 * k <= v < 4 * k + 4 ==> #[trigger] mesh.uvs@[v] == cell,
            decreases 6 - slot,
        {
            let index = triangles[slot];
            mesh.indices.push(index);
            slot = slot + 1;
        }
        proof {
            let done = quads@.take(k + 1);
            let earlier = quads@.take(k as int);
            assert(done.len() == k + 1);
            assert forall|v: int| 0 <= v < 4 * done.len() implies #[trigger] mesh.positions@[v]
                == vertex_position(data, done[v / 4], v % 4) && mesh.normals@[v] == face_normal(
                done[v / 4].face as int,
            ) && mesh.uvs@[v] == atlas_cell_of(quad_palette_index(data, voxels@, done[v / 4])) by {
                if v < 4 * k {
                    assert(done[v / 4] == earlier[v / 4]);
                    assert(mesh.positions@[v] == before.positions@[v]);
                    assert(mesh.normals@[v] == before.normals@[v]);
                    assert(mesh.uvs@[v] == before.uvs@[v]);
                } else {
                    let c = v - 4 * k;
                    assert(v / 4 == k && v % 4 == c);
                    assert(done[v / 4] == quad);
                    assert(mesh.positions@[v] == vertex_position(data, quad, c));
                }
            }
            assert forall|i: int| 0 <= i < 6 * done.len() implies #[trigger] mesh.indices@[i] == 4
                * (i / 6) + triangle_corner(done[i / 6].face as int, i % 6) by {
                if i < 6 * k {
                    assert(done[i / 6] == earlier[i / 6]);
                    assert(mesh.indices@[i] == before.indices@[i]);
                } else {
                    let s = i - 6 * k;
                    assert(i / 6 == k && i % 6 == s);
                    assert(done[i / 6] == quad);
                    assert(mesh.indices@[i] == start + triangle_corner(quad.face as int, s));
                }
            }
        }
        k = k + 1;
    }
    proof {
        assert(quads@.take(k as int) == quads@);
    }
    mesh
}

/// Extracts the mesh of a grid from the visibility of its voxels. Returns
/// `None` only where the quads handed back cannot be used: more than `u32`
/// can number, or one outside the array.
pub fn mesh_model(voxels: &Vec<VisibleVoxel>, data: &VoxelData) -> (result: Option<QuadMesh>)
    requires
        data.wf(),
        voxels@.len() == data.voxels@.len(),
    ensures
        result.is_some() == quads_usable(mesh_quads(voxels@, data.dims()), data.dims()),
        match result {
            Some(mesh) => is_mesh_of(&mesh, mesh_quads(voxels@, data.dims()), voxels@, data),
            None => true,
        },
{
    let dims = shape_as_array(&data.shape);
    let quads = if dims[0] >= 2 && dims[1] >= 2 && dims[2] >= 2 {
        greedy_quads(voxels, &data.shape, [dims[0] - 1, dims[1] - 1, dims[2] - 1])
    } else {
        Vec::new()
    };
    if quads_are_usable(&quads, dims) {
        Some(build_mesh(&quads, voxels, data))
    } else {
        None
    }
}

/// What a grid yields when it is meshed afresh.
pub struct Remeshed<T> {
    /// The surface mesh, absent where no voxel is visible.
    pub mesh: Option<QuadMesh>,
    /// The refraction index of every translucent cell, in storage order:
    /// what the material's refraction index is averaged from.
    pub refraction_indices: Vec<T>,
    /// The density entry of every inner cell, absent where none of them has
    /// a density.
    pub cloud: Option<Vec<Option<T>>>,
}

/// Whether `result` is what meshing `data` afresh gives under the palette
/// tables: the refraction indices of its translucent cells; a mesh exactly
/// where some voxel is visible and the extracted quads can be used, and
/// then the mesh of those quads; a density volume exactly where some inner
/// cell has a density, and then the density entries of all inner cells.
pub open spec fn is_remesh_of<T>(
    result: &Remeshed<T>,
    data: &VoxelData,
    ior_for_voxel: Seq<Option<T>>,
    density_for_voxel: Seq<Option<T>>,
) -> bool {
    let visible = data.visible_view(ior_for_voxel, density_for_voxel);
    let quads = mesh_quads(visible, data.dims());
    &&& result.refraction_indices@ == refraction_indices(data.voxels@, ior_for_voxel)
    &&& result.mesh.is_some() == (data.has_visible_voxel(ior_for_voxel, density_for_voxel)
        && quads_usable(quads, data.dims()))
    &&& match result.mesh {
        Some(mesh) => is_mesh_of(&mesh, quads, visible, data),
        None => true,
    }
    &&& result.cloud.is_some() == has_cloud_cell(data.voxels@, data.dims(), density_for_voxel)
    &&& match result.cloud {
        Some(cells) => cells@ == cloud_cells(data.voxels@, data.dims(), density_for_voxel),
        None => true,
    }
}

/// A grid that holds only the empty sentinel has no translucent cell.
pub proof fn lemma_empty_grid_has_no_refraction<T>(
    voxels: Seq<RawVoxel>,
    ior_for_voxel: Seq<Option<T>>,
)
    requires
        forall|i: int| 0 <= i < voxels.len() ==> voxels[i] == RawVoxel(255),
    ensures
        refraction_indices(voxels, ior_for_voxel).len() == 0,
    decreases voxels.len(),
{
    if voxels.len() > 0 {
        lemma_empty_grid_has_no_refraction(voxels.drop_last(), ior_for_voxel);
    }
}

/// Meshing a grid that holds only the empty sentinel gives no mesh and no
/// refraction index, whatever the palette says, so the model gets neither
/// geometry nor a material.
pub proof fn lemma_empty_grid_has_no_mesh<T>(
    result: &Remeshed<T>,
    data: &VoxelData,
    ior_for_voxel: Seq<Option<T>>,
    density_for_voxel: Seq<Option<T>>,
)
    requires
        forall|i: int| 0 <= i < data.voxels@.len() ==> data.voxels@[i] == RawVoxel(255),
        is_remesh_of(result, data, ior_for_voxel, density_for_voxel),
    ensures
        result.mesh.is_none(),
        result.refraction_indices@.len() == 0,
{
    lemma_empty_grid_has_no_refraction(data.voxels@, ior_for_voxel);
}

/// Two meshes of the same quads over grids of the same layout agree in
/// every vertex and index.
pub proof fn lemma_mesh_is_determined(
    one: &QuadMesh,
    other: &QuadMesh,
    quads: Seq<FaceQuad>,
    voxels: Seq<VisibleVoxel>,
    data: &VoxelData,
    twin: &VoxelData,
)
    requires
        data.dims() == twin.dims(),
        data.mesh_outer_faces == twin.mesh_outer_faces,
        is_mesh_of(one, quads, voxels, data),
        is_mesh_of(other, quads, voxels, twin),
    ensures
        one.positions@ == other.positions@,
        one.normals@ == other.normals@,
        one.uvs@ == other.uvs@,
        one.indices@ == other.indices@,
{
    assert forall|v: int| 0 <= v < 4 * quads.len() implies one.positions@[v]
        == other.positions@[v] by {
        assert(vertex_position(data, quads[v / 4], v % 4) == vertex_position(
            twin,
            quads[v / 4],
            v % 4,
        ));
    }
    assert(one.positions@ =~= other.positions@);
    assert(one.normals@ =~= other.normals@);
    assert forall|v: int| 0 <= v < 4 * quads.len() implies one.uvs@[v] == other.uvs@[v] by {
        assert(quad_palette_index(data, voxels, quads[v / 4]) == quad_palette_index(
            twin,
            voxels,
            quads[v / 4],
        ));
    }
    assert(one.uvs@ =~= other.uvs@);
    assert(one.indices@ =~= other.indices@);
}

/// Grids of the same layout that hold the same voxels mesh alike: both
/// have a mesh or neither has, the meshes agree in every vertex and index,
/// and so do the refraction indices and the density volumes.
pub proof fn lemma_equal_grids_remesh_alike<T>(
    one: &Remeshed<T>,
    other: &Remeshed<T>,
    data: &VoxelData,
    twin: &VoxelData,
    ior_for_voxel: Seq<Option<T>>,
    density_for_voxel: Seq<Option<T>>,
)
    requires
        data.dims() == twin.dims(),
        data.mesh_outer_faces == twin.mesh_outer_faces,
        data.voxels@ == twin.voxels@,
        is_remesh_of(one, data, ior_for_voxel, density_for_voxel),
        is_remesh_of(other, twin, ior_for_voxel, density_for_voxel),
    ensures
        one.refraction_indices@ == other.refraction_indices@,
        one.mesh.is_some() == other.mesh.is_some(),
        one.mesh.is_some() ==> {
            &&& one.mesh.unwrap().positions@ == other.mesh.unwrap().positions@
            &&& one.mesh.unwrap().normals@ == other.mesh.unwrap().normals@
            &&& one.mesh.unwrap().uvs@ == other.mesh.unwrap().uvs@
            &&& one.mesh.unwrap().indices@ == other.mesh.unwrap().indices@
        },
        one.cloud.is_some() == other.cloud.is_some(),
        one.cloud.is_some() ==> one.cloud.unwrap()@ == other.cloud.unwrap()@,
{
    let visible = data.visible_view(ior_for_voxel, density_for_voxel);
    assert(visible =~= twin.visible_view(ior_for_voxel, density_for_voxel));
    if one.mesh.is_some() {
        lemma_mesh_is_determined(
            &one.mesh.unwrap(),
            &other.mesh.unwrap(),
            mesh_quads(visible, data.dims()),
            visible,
            data,
            twin,
        );
    }
}

impl<T> Remeshed<T> {
    /// Whether the model has translucent voxels, and so takes the
    /// translucent material.
    pub fn is_translucent(&self) -> (translucent: bool)
        ensures
            translucent == (self.refraction_indices@.len() > 0),
    {
        self.refraction_indices.len() > 0
    }
}

impl VoxelData {
    /// Classifies every voxel against the palette's per-index tables and
    /// extracts the surface mesh and the density volume from scratch. A grid
    /// with no visible voxel has no mesh.
    pub fn remesh<T: Copy>(
        &self,
        ior_for_voxel: &[Option<T>],
        density_for_voxel: &[Option<T>],
    ) -> (result: Remeshed<T>)
        requires
            self.wf(),
        ensures
            is_remesh_of(&result, self, ior_for_voxel@, density_for_voxel@),
            !self.has_visible_voxel(ior_for_voxel@, density_for_voxel@) ==> result.mesh.is_none(),
    {
        let (visible, refraction, needs_meshing) = self.visible_voxels(
            ior_for_voxel,
            density_for_voxel,
        );
        assert(visible@ =~= self.visible_view(ior_for_voxel@, density_for_voxel@));
        let (cloud_cells, has_cloud) = self.cloud_voxels(density_for_voxel);
        let mesh = if needs_meshing {
            mesh_model(&visible, self)
        } else {
            None
        };
        let cloud = if has_cloud {
            Some(cloud_cells)
        } else {
            None
        };
        Remeshed { mesh, refraction_indices: refraction, cloud }
    }
}

} // verus!
