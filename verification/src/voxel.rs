//! Voxel values as seen by callers and as stored, and the visibility of a
//! stored voxel as the mesher needs it.

use vstd::prelude::*;

verus! {

/// A voxel as callers see it: an index into the palette in `1..=255`, with
/// `0` reserved for empty space.
#[derive(Clone, Copy, PartialEq, Eq, Debug, Structural)]
pub struct Voxel(pub u8);

/// The palette index reserved for an empty space.
pub const EMPTY_INDEX: u8 = 0;

/// The stored index reserved for an empty space.
pub const RAW_EMPTY_INDEX: u8 = 255;

impl Voxel {
    /// The value reserved for an empty space.
    pub fn empty() -> (voxel: Voxel)
        ensures
            voxel == Voxel(EMPTY_INDEX),
    {
        Voxel(EMPTY_INDEX)
    }
}

/// A voxel as stored: material indices run `0..=254`, with `255` reserved
/// for empty space.
#[derive(Clone, Copy, PartialEq, Eq, Debug, Structural)]
pub struct RawVoxel(pub u8);

impl RawVoxel {
    /// The value reserved for an empty space.
    pub fn empty() -> (raw: RawVoxel)
        ensures
            raw == RawVoxel(RAW_EMPTY_INDEX),
    {
        RawVoxel(RAW_EMPTY_INDEX)
    }
}

/// The stored form of a voxel: one less than the palette index, wrapping
/// so that empty (`0`) becomes `255`.
pub open spec fn raw_of(voxel: Voxel) -> RawVoxel {
    if voxel.0 == 0 {
        RawVoxel(255)
    } else {
        RawVoxel((voxel.0 - 1) as u8)
    }
}

/// The caller-facing form of a stored voxel: one more than the stored
/// index, wrapping so that empty (`255`) becomes `0`.
pub open spec fn voxel_of(raw: RawVoxel) -> Voxel {
    if raw.0 == 255 {
        Voxel(0)
    } else {
        Voxel((raw.0 + 1) as u8)
    }
}

impl From<Voxel> for RawVoxel {
    fn from(value: Voxel) -> (raw: RawVoxel)
        ensures
            raw == raw_of(value),
    {
        if value.0 == 0 {
            RawVoxel(255)
        } else {
            RawVoxel(value.0 - 1)
        }
    }
}

impl vstd::std_specs::convert::FromSpecImpl<Voxel> for RawVoxel {
    open spec fn obeys_from_spec() -> bool {
        true
    }

    open spec fn from_spec(value: Voxel) -> RawVoxel {
        raw_of(value)
    }
}

impl From<RawVoxel> for Voxel {
    fn from(value: RawVoxel) -> (voxel: Voxel)
        ensures
            voxel == voxel_of(value),
    {
        if value.0 == 255 {
            Voxel(0)
        } else {
            Voxel(value.0 + 1)
        }
    }
}

impl vstd::std_specs::convert::FromSpecImpl<RawVoxel> for Voxel {
    open spec fn obeys_from_spec() -> bool {
        true
    }

    open spec fn from_spec(value: RawVoxel) -> Voxel {
        voxel_of(value)
    }
}

/// Converting a voxel to its stored form and back gives the voxel again, and
/// the same holds starting from a stored voxel.
pub proof fn lemma_voxel_round_trip(voxel: Voxel, raw: RawVoxel)
    ensures
        voxel_of(raw_of(voxel)) == voxel,
        raw_of(voxel_of(raw)) == raw,
        raw_of(Voxel(0)) == RawVoxel(255),
        voxel_of(RawVoxel(255)) == Voxel(0),
{
}

/// How a stored voxel takes part in surface extraction.
#[derive(Clone, Copy, PartialEq, Eq, Debug, Structural)]
pub enum Visibility {
    /// Produces no geometry.
    Empty,
    /// Produces geometry that light passes through.
    Translucent,
    /// Produces geometry that blocks light.
    Opaque,
}

/// A stored voxel together with its visibility, built afresh each time a
/// mesh is extracted.
#[derive(Clone, Copy, PartialEq, Eq, Debug, Structural)]
pub struct VisibleVoxel {
    /// The stored material index.
    pub index: u8,
    /// Whether and how the voxel is drawn.
    pub visibility: Visibility,
}

#[verifier::external_type_specification]
#[verifier::external_body]
pub struct ExVoxelVisibility(block_mesh::VoxelVisibility);

/// The visibility that a `block_mesh::VoxelVisibility` stands for: `Empty`
/// for its `Empty`, `Translucent` for its `Translucent`, `Opaque` for its
/// `Opaque`.
///
/// The type is another crate's and opaque here, so the library speaks of
/// its values through this name alone. The mesher is handed them through
/// the two impls below and reads nothing else of a voxel but its merge
/// value, so the quads it extracts depend on a voxel through these two
/// alone.
pub uninterp spec fn visibility_in_block_mesh(outside: block_mesh::VoxelVisibility) -> Visibility;

impl block_mesh::Voxel for VisibleVoxel {
    fn get_visibility(&self) -> (outside: block_mesh::VoxelVisibility)
        ensures
            visibility_in_block_mesh(outside) == self.visibility,
    {
        block_visibility(self.visibility)
    }
}

impl block_mesh::MergeVoxel for VisibleVoxel {
    type MergeValue = VisibleVoxel;

    fn merge_value(&self) -> (value: VisibleVoxel)
        ensures
            value == *self,
    {
        *self
    }
}

/// Builds the `block_mesh::VoxelVisibility` that stands for a visibility,
/// variant for variant: the crate's enum has these three variants and no
/// other.
#[verifier::external_body]
fn block_visibility(visibility: Visibility) -> (outside: block_mesh::VoxelVisibility)
    ensures
        visibility_in_block_mesh(outside) == visibility,
{
    match visibility {
        Visibility::Empty => block_mesh::VoxelVisibility::Empty,
        Visibility::Translucent => block_mesh::VoxelVisibility::Translucent,
        Visibility::Opaque => block_mesh::VoxelVisibility::Opaque,
    }
}

} // verus!
