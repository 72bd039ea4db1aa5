use bevy_vox_scene::voxel::RawVoxel;
use bevy_vox_scene::voxel::Visibility;
use bevy_vox_scene::voxel::VisibleVoxel;
use bevy_vox_scene::voxel::Voxel;

#[test]
fn test_raw_voxel_conversion() {
    let raw = RawVoxel::empty();
    let vox: Voxel = raw.into();
    assert_eq!(
        vox,
        Voxel::empty(),
        "RawVoxel(255) should have wrapped around to Voxel(0)"
    );
    let back_to_raw = RawVoxel::from(vox);
    assert_eq!(
        back_to_raw,
        RawVoxel::empty(),
        "Voxel(0) should have wrapped around to RawVoxel(255)"
    );
}

#[test]
fn visibility_is_handed_to_the_mesher_variant_for_variant() {
    let voxel = |visibility| VisibleVoxel { index: 3, visibility };
    assert_eq!(
        block_mesh::Voxel::get_visibility(&voxel(Visibility::Empty)),
        block_mesh::VoxelVisibility::Empty
    );
    assert_eq!(
        block_mesh::Voxel::get_visibility(&voxel(Visibility::Translucent)),
        block_mesh::VoxelVisibility::Translucent
    );
    assert_eq!(
        block_mesh::Voxel::get_visibility(&voxel(Visibility::Opaque)),
        block_mesh::VoxelVisibility::Opaque
    );
    let merged = block_mesh::MergeVoxel::merge_value(&voxel(Visibility::Opaque));
    assert_eq!(merged, voxel(Visibility::Opaque));
}
