use bevy_vox_scene::data::ModelVoxel;
use bevy_vox_scene::data::OutOfBoundsError;
use bevy_vox_scene::data::VoxelData;
use bevy_vox_scene::math::HalfVec3;
use bevy_vox_scene::math::IVec3;
use bevy_vox_scene::math::UVec3;
use bevy_vox_scene::voxel::RawVoxel;
use bevy_vox_scene::voxel::Voxel;

fn cuboid_distance(point: [f32; 3], half_extent: [f32; 3]) -> f32 {
    let q = [
        point[0].abs() - half_extent[0],
        point[1].abs() - half_extent[1],
        point[2].abs() - half_extent[2],
    ];
    let outside =
        (q[0].max(0.0).powi(2) + q[1].max(0.0).powi(2) + q[2].max(0.0).powi(2)).sqrt();
    outside + q[0].max(q[1]).max(q[2]).min(0.0)
}

fn voxelize_cuboid(half_extent: [f32; 3], size: u32, fill: Voxel) -> VoxelData {
    assert!(VoxelData::size_is_supported(UVec3::splat(size), true));
    let mut data = VoxelData::new(UVec3::splat(size), true);
    let half = size as f32 * 0.5;
    for x in 0..size {
        for y in 0..size {
            for z in 0..size {
                let point = [x as f32 - half, y as f32 - half, z as f32 - half];
                let voxel = if cuboid_distance(point, half_extent) < 0.0 {
                    fill
                } else {
                    Voxel::empty()
                };
                let _ = data.set_voxel(voxel, IVec3::new(x as i32, y as i32, z as i32));
            }
        }
    }
    data
}

#[test]
fn test_voxel_queryable() {
    let data = voxelize_cuboid([2.0, 2.0, 2.0], 4, Voxel(1));
    assert!(data.point_in_model(IVec3::new(3, 0, 0)).is_ok());
    assert!(data.point_in_model(IVec3::new(4, 0, 0)).is_err());
    assert_eq!(
        data.local_point_to_voxel_space(HalfVec3 { x: 0, y: 0, z: 0 }),
        IVec3::new(2, 2, 2)
    );
}

#[test]
fn new_grid_is_empty_and_padded() {
    let data = VoxelData::new(UVec3::new(2, 3, 4), true);
    assert_eq!(data.voxels.len(), 4 * 5 * 6);
    assert!(data.voxels.iter().all(|v| *v == RawVoxel(255)));
    assert_eq!(data.size(), IVec3::new(2, 3, 4));
    assert_eq!(data.padding(), 2);
    let bare = VoxelData::new(UVec3::new(2, 3, 4), false);
    assert_eq!(bare.voxels.len(), 2 * 3 * 4);
    assert_eq!(bare.size(), IVec3::new(2, 3, 4));
    assert_eq!(bare.padding(), 0);
}

#[test]
fn size_support_is_decided_by_the_cell_count() {
    assert!(VoxelData::size_is_supported(UVec3::new(1000, 1000, 1000), true));
    assert!(!VoxelData::size_is_supported(UVec3::new(2000, 2000, 2000), true));
    assert!(!VoxelData::size_is_supported(UVec3::new(u32::MAX, 1, 1), true));
    assert!(VoxelData::size_is_supported(UVec3::new(u32::MAX, 1, 1), false));
    assert!(VoxelData::size_is_supported(UVec3::new(0, 0, 0), false));
}

#[test]
fn write_then_read_round_trips_at_every_point() {
    let mut data = VoxelData::new(UVec3::new(3, 4, 5), true);
    let mut value: u8 = 1;
    for x in 0..3 {
        for y in 0..4 {
            for z in 0..5 {
                let point = IVec3::new(x, y, z);
                assert_eq!(data.set_voxel(Voxel(value), point), Ok(()));
                assert_eq!(data.get_voxel_at_point(point), Ok(Voxel(value)));
                value = value.wrapping_add(1);
            }
        }
    }
    let mut value: u8 = 1;
    for x in 0..3 {
        for y in 0..4 {
            for z in 0..5 {
                assert_eq!(data.get_voxel_at_point(IVec3::new(x, y, z)), Ok(Voxel(value)));
                value = value.wrapping_add(1);
            }
        }
    }
}

#[test]
fn storage_is_row_major_with_x_fastest() {
    let mut data = VoxelData::new(UVec3::new(2, 3, 4), true);
    data.set_voxel(Voxel(9), IVec3::new(1, 2, 3)).unwrap();
    // padded cell (2, 3, 4) in a 4 x 5 x 6 array
    let index = 2 + 4 * 3 + 4 * 5 * 4;
    assert_eq!(data.voxels[index], RawVoxel(8));
    assert_eq!(data.voxels.iter().filter(|v| **v != RawVoxel(255)).count(), 1);
    let mut bare = VoxelData::new(UVec3::new(2, 3, 4), false);
    bare.set_voxel(Voxel(9), IVec3::new(1, 2, 3)).unwrap();
    assert_eq!(bare.voxels[1 + 2 * 2 + 2 * 3 * 3], RawVoxel(8));
}

#[test]
fn points_outside_the_model_are_out_of_bounds() {
    let mut data = VoxelData::new(UVec3::new(4, 4, 4), true);
    let outside = [
        IVec3::new(4, 0, 0),
        IVec3::new(-1, 0, 0),
        IVec3::new(0, 4, 0),
        IVec3::new(0, -1, 0),
        IVec3::new(0, 0, 4),
        IVec3::new(0, 0, -1),
        IVec3::new(i32::MAX, i32::MIN, 0),
    ];
    for point in outside {
        assert_eq!(data.get_voxel_at_point(point), Err(OutOfBoundsError));
        assert_eq!(data.set_voxel(Voxel(3), point), Err(OutOfBoundsError));
        assert_eq!(data.point_in_model(point), Err(OutOfBoundsError));
    }
    assert!(data.voxels.iter().all(|v| *v == RawVoxel(255)));
    assert_eq!(data.point_in_model(IVec3::new(3, 2, 1)), Ok(UVec3::new(3, 2, 1)));
}

#[test]
fn empty_model_has_no_point() {
    let mut data = VoxelData::new(UVec3::new(0, 0, 0), true);
    assert_eq!(data.size(), IVec3::new(0, 0, 0));
    assert_eq!(data.get_voxel_at_point(IVec3::new(0, 0, 0)), Err(OutOfBoundsError));
    assert_eq!(data.set_voxel(Voxel(1), IVec3::new(0, 0, 0)), Err(OutOfBoundsError));
}

#[test]
fn ingested_model_is_mirrored_and_turned_y_up() {
    let voxels = vec![
        ModelVoxel { x: 0, y: 1, z: 2, i: 5 },
        ModelVoxel { x: 1, y: 0, z: 0, i: 6 },
        ModelVoxel { x: 1, y: 0, z: 0, i: 7 },
        ModelVoxel { x: 2, y: 0, z: 0, i: 8 },
        ModelVoxel { x: 0, y: 3, z: 0, i: 9 },
    ];
    // two wide, three deep, four high in the model's own axes
    let data = VoxelData::from_model(UVec3::new(2, 3, 4), &voxels, true);
    assert_eq!(data.size(), IVec3::new(2, 4, 3));
    assert_eq!(data.get_voxel_at_point(IVec3::new(1, 2, 1)), Ok(Voxel(6)));
    assert_eq!(data.get_voxel_at_point(IVec3::new(0, 0, 0)), Ok(Voxel(8)));
    let filled = data.voxels.iter().filter(|v| **v != RawVoxel(255)).count();
    assert_eq!(filled, 2);
}

#[test]
fn empty_voxel_constants() {
    assert_eq!(Voxel::empty(), Voxel(0));
    assert_eq!(RawVoxel::empty(), RawVoxel(255));
    assert_eq!(RawVoxel::from(Voxel(1)), RawVoxel(0));
    assert_eq!(RawVoxel::from(Voxel(255)), RawVoxel(254));
    assert_eq!(Voxel::from(RawVoxel(0)), Voxel(1));
    assert_eq!(Voxel::from(RawVoxel(254)), Voxel(255));
    for value in 0..=255u8 {
        assert_eq!(Voxel::from(RawVoxel::from(Voxel(value))), Voxel(value));
        assert_eq!(RawVoxel::from(Voxel::from(RawVoxel(value))), RawVoxel(value));
    }
}

#[test]
fn smallest_extent_is_the_least_component() {
    assert_eq!(IVec3::new(4, 2, 9).min_element(), 2);
    assert_eq!(IVec3::new(1, 2, 9).min_element(), 1);
    assert_eq!(IVec3::new(4, 4, 3).min_element(), 3);
    assert_eq!(IVec3::splat(7).min_element(), 7);
    assert_eq!(UVec3::splat(7), UVec3::new(7, 7, 7));
}

#[test]
fn local_origin_is_the_center_of_the_model() {
    let data = VoxelData::new(UVec3::splat(4), true);
    let origin = HalfVec3 { x: 0, y: 0, z: 0 };
    assert_eq!(data.local_point_to_voxel_space(origin), IVec3::new(2, 2, 2));
    let odd = VoxelData::new(UVec3::new(3, 5, 1), false);
    assert_eq!(odd.local_point_to_voxel_space(origin), IVec3::new(1, 2, 0));
    // a quarter voxel short of the minimum corner is cut off towards zero
    let near_corner = HalfVec3 { x: -4, y: -5, z: -9 };
    assert_eq!(data.local_point_to_voxel_space(near_corner), IVec3::new(0, 0, -2));
    let far = HalfVec3 { x: i64::MAX, y: i64::MIN, z: 7 };
    assert_eq!(
        data.local_point_to_voxel_space(far),
        IVec3::new(i32::MAX, i32::MIN, 5)
    );
}

#[test]
fn voxel_coordinates_map_to_local_space_and_back() {
    let data = VoxelData::new(UVec3::new(4, 3, 2), true);
    assert_eq!(
        data.voxel_coord_to_local_space(IVec3::new(0, 0, 0)),
        HalfVec3 { x: -4, y: -3, z: -2 }
    );
    assert_eq!(
        data.voxel_coord_to_local_space(IVec3::new(3, 1, 2)),
        HalfVec3 { x: 2, y: -1, z: 2 }
    );
    for x in 0..4 {
        for y in 0..3 {
            for z in 0..2 {
                let voxel = IVec3::new(x, y, z);
                let local = data.voxel_coord_to_local_space(voxel);
                assert_eq!(data.local_point_to_voxel_space(local), voxel);
            }
        }
    }
}

#[test]
fn grids_made_by_the_library_are_well_formed() {
    let mut data = VoxelData::new(UVec3::new(2, 3, 4), true);
    assert!(data.is_well_formed());
    data.set_voxel(Voxel(4), IVec3::new(1, 1, 1)).unwrap();
    assert!(data.is_well_formed());
    assert!(VoxelData::new(UVec3::new(0, 0, 0), false).is_well_formed());
    assert!(VoxelData::new(UVec3::new(0, 5, 0), true).is_well_formed());
    // a voxel in the padding breaks the invariant
    data.voxels[0] = RawVoxel(3);
    assert!(!data.is_well_formed());
    data.voxels[0] = RawVoxel(255);
    assert!(data.is_well_formed());
    // so does a voxel array of the wrong length
    data.voxels.pop();
    assert!(!data.is_well_formed());
    let mut bare = VoxelData::new(UVec3::new(2, 2, 2), false);
    bare.mesh_outer_faces = true;
    bare.voxels[7] = RawVoxel(1);
    assert!(!bare.is_well_formed());
    bare.voxels[7] = RawVoxel(255);
    assert!(bare.is_well_formed());
    assert_eq!(bare.size(), IVec3::new(0, 0, 0));
}
