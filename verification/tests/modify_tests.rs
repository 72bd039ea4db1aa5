use bevy_vox_scene::data::OutOfBoundsError;
use bevy_vox_scene::data::VoxelData;
use bevy_vox_scene::math::IVec3;
use bevy_vox_scene::math::UVec3;
use bevy_vox_scene::modify::material_kind;
use bevy_vox_scene::modify::material_swap;
use bevy_vox_scene::modify::MaterialKind;
use bevy_vox_scene::modify::modified_voxels;
use bevy_vox_scene::modify::modify_voxel_model;
use bevy_vox_scene::modify::MaterialSwap;
use bevy_vox_scene::modify::VoxelRegion;
use bevy_vox_scene::modify::VoxelRegionMode;
use bevy_vox_scene::palette::gradient_elements;
use bevy_vox_scene::palette::padded_elements;
use bevy_vox_scene::palette::plan_material;
use bevy_vox_scene::palette::MaterialProperty;
use bevy_vox_scene::palette::Scalar;
use bevy_vox_scene::palette::PALETTE_SIZE;
use bevy_vox_scene::scene::get_accumulated_and_node_name;
use bevy_vox_scene::scene::parse_bool;
use bevy_vox_scene::scene::AnimationTimer;
use bevy_vox_scene::scene::AnimationUpdate;
use bevy_vox_scene::scene::RepeatMode;
use bevy_vox_scene::scene::VoxelAnimationFrame;
use bevy_vox_scene::scene::VoxelAnimationPlayer;
use bevy_vox_scene::scene::VoxelLayer;
use bevy_vox_scene::voxel::RawVoxel;
use bevy_vox_scene::voxel::Voxel;

fn no_entries() -> Vec<Option<f32>> {
    vec![None; 256]
}

fn cuboid_grid() -> VoxelData {
    // a cuboid of half extent 2 sampled at the cells of a 4 x 4 x 4 grid:
    // a cell is inside where all of |p| - 2 are below zero
    let mut data = VoxelData::new(UVec3::splat(4), true);
    for x in 0..4 {
        for y in 0..4 {
            for z in 0..4 {
                let p = [x as f32 - 2.0, y as f32 - 2.0, z as f32 - 2.0];
                let distance = (p[0].abs() - 2.0).max(p[1].abs() - 2.0).max(p[2].abs() - 2.0);
                if distance < 0.0 {
                    data.set_voxel(Voxel(1), IVec3::new(x, y, z)).unwrap();
                }
            }
        }
    }
    data
}

fn boxed(origin: (i32, i32, i32), size: (i32, i32, i32)) -> VoxelRegionMode {
    VoxelRegionMode::Box(VoxelRegion {
        origin: IVec3::new(origin.0, origin.1, origin.2),
        size: IVec3::new(size.0, size.1, size.2),
    })
}

#[test]
fn test_modify_voxels() {
    let mut model = cuboid_grid();
    let region = boxed((2, 2, 2), (1, 1, 1));
    let modified = modify_voxel_model(
        &mut model,
        &region,
        &|_pos: IVec3, _voxel: &Voxel, _model: &VoxelData| Voxel(7),
        &no_entries(),
        &no_entries(),
        false,
    );
    assert!(modified.remeshed.mesh.is_some());
    assert_eq!(modified.material, MaterialSwap::Keep);
    assert_eq!(
        model.get_voxel_at_point(IVec3::splat(4)),
        Err(OutOfBoundsError),
        "Max coordinate should be 3,3,3"
    );
    assert_eq!(
        model.get_voxel_at_point(IVec3::splat(-1)),
        Err(OutOfBoundsError),
        "Min coordinate should be 0,0,0"
    );
    assert_eq!(model.get_voxel_at_point(IVec3::new(4, 0, 0)), Err(OutOfBoundsError));
    assert_eq!(model.get_voxel_at_point(IVec3::new(-1, 0, 0)), Err(OutOfBoundsError));
    let voxel = model
        .get_voxel_at_point(IVec3::splat(2))
        .expect("Retrieve voxel");
    assert_eq!(voxel.0, 7, "Voxel material should've been changed to 7");
    let sevens = model.voxels.iter().filter(|v| **v == RawVoxel(6)).count();
    assert_eq!(sevens, 1);
    assert_eq!(model.get_voxel_at_point(IVec3::new(1, 1, 1)), Ok(Voxel(1)));
    assert_eq!(model.get_voxel_at_point(IVec3::new(0, 1, 1)), Ok(Voxel(0)));
}

#[test]
fn constant_edit_twice_changes_nothing_more() {
    let mut model = cuboid_grid();
    let region = boxed((1, 0, 2), (2, 3, 5));
    let constant = |_pos: IVec3, _voxel: &Voxel, _model: &VoxelData| Voxel(9);
    let first =
        modify_voxel_model(&mut model, &region, &constant, &no_entries(), &no_entries(), false);
    let after_first = model.voxels.clone();
    let second =
        modify_voxel_model(&mut model, &region, &constant, &no_entries(), &no_entries(), false);
    assert_eq!(model.voxels, after_first);
    let first = first.remeshed.mesh.unwrap();
    let second = second.remeshed.mesh.unwrap();
    assert_eq!(first.positions, second.positions);
    assert_eq!(first.normals, second.normals);
    assert_eq!(first.uvs, second.uvs);
    assert_eq!(first.indices, second.indices);
    // x in 1..3, y in 0..3, z in 2..4
    assert_eq!(model.voxels.iter().filter(|v| **v == RawVoxel(8)).count(), 2 * 3 * 2);
}

#[test]
fn transform_reads_the_grid_as_it_was() {
    let mut model = VoxelData::new(UVec3::new(4, 1, 1), true);
    model.set_voxel(Voxel(5), IVec3::new(0, 0, 0)).unwrap();
    // every cell takes the value of its neighbour towards -x
    let shift = |pos: IVec3, _voxel: &Voxel, model: &VoxelData| {
        model
            .get_voxel_at_point(IVec3::new(pos.x - 1, pos.y, pos.z))
            .unwrap_or(Voxel(0))
    };
    let updated = modified_voxels(&model, &VoxelRegionMode::All, &shift);
    model.voxels = updated;
    let row: Vec<Voxel> = (0..4)
        .map(|x| model.get_voxel_at_point(IVec3::new(x, 0, 0)).unwrap())
        .collect();
    assert_eq!(row, vec![Voxel(0), Voxel(5), Voxel(0), Voxel(0)]);
}

#[test]
fn transform_is_handed_unpadded_points_and_current_voxels() {
    let mut model = VoxelData::new(UVec3::new(2, 2, 2), true);
    model.set_voxel(Voxel(3), IVec3::new(1, 0, 1)).unwrap();
    let encode = |pos: IVec3, voxel: &Voxel, _model: &VoxelData| {
        Voxel((100 + pos.x + 2 * pos.y + 4 * pos.z) as u8 + voxel.0)
    };
    let _ = modify_voxel_model(
        &mut model,
        &VoxelRegionMode::All,
        &encode,
        &no_entries(),
        &no_entries(),
        false,
    );
    for x in 0..2 {
        for y in 0..2 {
            for z in 0..2 {
                let bonus = if (x, y, z) == (1, 0, 1) { 3 } else { 0 };
                assert_eq!(
                    model.get_voxel_at_point(IVec3::new(x, y, z)),
                    Ok(Voxel((100 + x + 2 * y + 4 * z) as u8 + bonus))
                );
            }
        }
    }
    // the padding stays empty
    assert_eq!(model.voxels.iter().filter(|v| **v != RawVoxel(255)).count(), 8);
}

#[test]
fn edit_of_a_model_without_cells_changes_nothing() {
    let mut model = VoxelData::new(UVec3::new(0, 3, 3), true);
    let before = model.voxels.clone();
    let modified = modify_voxel_model(
        &mut model,
        &VoxelRegionMode::All,
        &|_pos: IVec3, _voxel: &Voxel, _model: &VoxelData| Voxel(7),
        &no_entries(),
        &no_entries(),
        false,
    );
    assert_eq!(model.voxels, before);
    assert!(modified.remeshed.mesh.is_none());
}

#[test]
fn edit_reports_material_swaps() {
    let mut model = VoxelData::new(UVec3::splat(2), true);
    let mut ior = no_entries();
    ior[1] = Some(1.5);
    let glass = |_pos: IVec3, _voxel: &Voxel, _model: &VoxelData| Voxel(2);
    let stone = |_pos: IVec3, _voxel: &Voxel, _model: &VoxelData| Voxel(1);
    let all = VoxelRegionMode::All;
    let modified = modify_voxel_model(&mut model, &all, &glass, &ior, &no_entries(), false);
    assert_eq!(modified.material, MaterialSwap::ToTranslucent);
    assert_eq!(modified.remeshed.refraction_indices, vec![1.5; 8]);
    let modified = modify_voxel_model(&mut model, &all, &glass, &ior, &no_entries(), true);
    assert_eq!(modified.material, MaterialSwap::Keep);
    let modified = modify_voxel_model(&mut model, &all, &stone, &ior, &no_entries(), true);
    assert_eq!(modified.material, MaterialSwap::ToOpaque);
    assert!(modified.remeshed.refraction_indices.is_empty());
    assert_eq!(material_swap(false, false), MaterialSwap::Keep);
    assert_eq!(material_swap(true, true), MaterialSwap::Keep);
    assert_eq!(material_swap(false, true), MaterialSwap::ToTranslucent);
    assert_eq!(material_swap(true, false), MaterialSwap::ToOpaque);
}

#[test]
fn regions_are_clamped_into_the_model() {
    let size = IVec3::new(4, 5, 6);
    let whole = VoxelRegion { origin: IVec3::splat(0), size };
    assert_eq!(VoxelRegionMode::All.clamped(size), whole);
    assert_eq!(
        boxed((1, 2, 3), (2, 2, 2)).clamped(size),
        VoxelRegion { origin: IVec3::new(1, 2, 3), size: IVec3::new(2, 2, 2) }
    );
    assert_eq!(
        boxed((-3, 2, 10), (5, 9, 1)).clamped(size),
        VoxelRegion { origin: IVec3::new(0, 2, 5), size: IVec3::new(4, 3, 1) }
    );
    assert_eq!(
        boxed((3, 4, 5), (0, -2, 7)).clamped(size),
        VoxelRegion { origin: IVec3::new(3, 4, 5), size: IVec3::new(1, 1, 1) }
    );
    assert_eq!(
        boxed((i32::MIN, i32::MAX, 0), (i32::MAX, i32::MIN, i32::MAX)).clamped(size),
        VoxelRegion { origin: IVec3::new(0, 4, 0), size: IVec3::new(4, 1, 6) }
    );
    assert_eq!(
        boxed((5, 5, 5), (1, 1, 1)).clamped(IVec3::splat(1)),
        VoxelRegion { origin: IVec3::splat(0), size: IVec3::splat(1) }
    );
}

#[test]
fn region_from_center() {
    let region = VoxelRegion::from_center(IVec3::new(10, 10, 10), IVec3::new(3, 4, 5));
    assert_eq!(region.origin, IVec3::new(7, 6, 5));
    assert_eq!(region.size, IVec3::new(6, 8, 10));
}

#[test]
fn palette_is_padded_to_its_fixed_size() {
    let colors = vec![[1.0f32, 0.0, 0.0, 1.0], [0.0, 1.0, 0.0, 1.0], [0.0, 0.0, 1.0, 1.0]];
    let inert = [0.5f32, 0.5, 0.5, 1.0];
    let palette = padded_elements(&colors, inert);
    assert_eq!(palette.len(), 256);
    assert_eq!(PALETTE_SIZE, 256);
    assert_eq!(palette[0..3], colors[..]);
    assert!(palette[3..].iter().all(|c| *c == inert));
    let long: Vec<u32> = (0..300).collect();
    let cut = padded_elements(&long, 0);
    assert_eq!(cut, (0..256).collect::<Vec<u32>>());
    assert_eq!(padded_elements(&Vec::<u8>::new(), 9), vec![9u8; 256]);
}

#[test]
fn material_plan_follows_the_classification() {
    let varies: MaterialProperty<f32> = MaterialProperty::VariesPerElement;
    let zero = MaterialProperty::Constant(0.0f32);
    let half = MaterialProperty::Constant(0.5f32);
    let plan = plan_material(&zero, false, &half, &zero, &zero);
    assert!(!plan.emissive_texture);
    assert!(!plan.metallic_roughness_texture);
    assert!(!plan.specular_transmission_texture);
    assert_eq!(plan.perceptual_roughness, Scalar::Value(0.5));
    assert_eq!(plan.metallic, Scalar::Value(0.0));
    assert_eq!(plan.specular_transmission, Scalar::Value(0.0));
    let plan = plan_material(&half, true, &varies, &zero, &half);
    assert!(plan.emissive_texture);
    assert!(plan.metallic_roughness_texture);
    assert!(!plan.specular_transmission_texture);
    assert_eq!(plan.perceptual_roughness, Scalar::One);
    assert_eq!(plan.metallic, Scalar::One);
    assert_eq!(plan.specular_transmission, Scalar::Value(0.5));
    let plan = plan_material(&varies, false, &half, &varies, &varies);
    assert!(plan.emissive_texture);
    assert!(plan.metallic_roughness_texture);
    assert!(plan.specular_transmission_texture);
    assert_eq!(plan.perceptual_roughness, Scalar::One);
    assert_eq!(plan.metallic, Scalar::One);
    assert_eq!(plan.specular_transmission, Scalar::One);
}

#[test]
fn names_accumulate_along_the_path() {
    let outer = "outer-group".to_string();
    let inner = "inner-group".to_string();
    assert_eq!(get_accumulated_and_node_name(None, None), (None, None));
    assert_eq!(
        get_accumulated_and_node_name(None, Some(&outer)),
        (Some(outer.clone()), Some(outer.clone()))
    );
    assert_eq!(
        get_accumulated_and_node_name(Some(&outer), None),
        (Some(outer.clone()), None)
    );
    assert_eq!(
        get_accumulated_and_node_name(Some(&outer), Some(&inner)),
        (
            Some("outer-group/inner-group".to_string()),
            Some("outer-group/inner-group".to_string())
        )
    );
}

#[test]
fn only_one_counts_as_a_set_flag() {
    assert!(parse_bool(Some("1".to_string())));
    assert!(!parse_bool(Some("0".to_string())));
    assert!(!parse_bool(Some("true".to_string())));
    assert!(!parse_bool(Some("11".to_string())));
    assert!(!parse_bool(Some(String::new())));
    assert!(!parse_bool(None));
}

fn player(frames: usize, repeat_mode: RepeatMode) -> VoxelAnimationPlayer {
    VoxelAnimationPlayer {
        frames: (10..10 + frames).collect(),
        repeat_mode,
        is_paused: false,
        timer: AnimationTimer { current_frame_index: 0, play_count: 0 },
    }
}

#[test]
fn animation_advances_and_repeats() {
    let mut forever = player(3, RepeatMode::Forever);
    assert_eq!(forever.did_advance_frame(false), AnimationUpdate::SameFrame);
    assert_eq!(forever.did_advance_frame(true), AnimationUpdate::AdvanceFrame(11));
    assert_eq!(forever.did_advance_frame(true), AnimationUpdate::AdvanceFrame(12));
    assert_eq!(forever.did_advance_frame(true), AnimationUpdate::AdvanceFrame(10));
    assert_eq!(forever.timer, AnimationTimer { current_frame_index: 0, play_count: 1 });
    forever.is_paused = true;
    assert_eq!(forever.did_advance_frame(true), AnimationUpdate::SameFrame);
    assert_eq!(forever.timer, AnimationTimer { current_frame_index: 0, play_count: 1 });
}

#[test]
fn animation_ends_after_its_last_play() {
    let mut once = player(2, RepeatMode::Never);
    assert_eq!(once.did_advance_frame(true), AnimationUpdate::AdvanceFrame(11));
    assert_eq!(once.did_advance_frame(true), AnimationUpdate::ReachedEnd);
    assert_eq!(once.timer, AnimationTimer { current_frame_index: 2, play_count: 0 });
    let mut twice = player(2, RepeatMode::Count(2));
    assert_eq!(twice.did_advance_frame(true), AnimationUpdate::AdvanceFrame(11));
    assert_eq!(twice.did_advance_frame(true), AnimationUpdate::AdvanceFrame(10));
    assert_eq!(twice.did_advance_frame(true), AnimationUpdate::AdvanceFrame(11));
    assert_eq!(twice.did_advance_frame(true), AnimationUpdate::ReachedEnd);
    assert_eq!(twice.timer, AnimationTimer { current_frame_index: 2, play_count: 2 });
}

#[test]
fn scene_components_hold_their_values() {
    let layer = VoxelLayer { id: 3, name: Some("scenery".to_string()) };
    assert_eq!(layer.clone().id, 3);
    assert_eq!(layer.name.as_deref(), Some("scenery"));
    assert_eq!(VoxelAnimationFrame(4).0, 4);
}

#[test]
fn gradient_fills_the_stretches_between_its_stops() {
    let stops = vec![(2u8, 10.0f32), (6, 30.0), (250, 40.0)];
    let lerp = |from: &f32, to: &f32, step: u8, distance: u8| {
        from + (to - from) * (step as f32 / distance as f32)
    };
    let elements = gradient_elements(&stops, -1.0, &lerp);
    assert_eq!(elements.len(), 256);
    assert_eq!(elements[0..2], [-1.0, -1.0]);
    assert_eq!(elements[2..6], [10.0, 15.0, 20.0, 25.0]);
    assert_eq!(elements[6], 30.0);
    assert_eq!(elements[128], 35.0);
    assert_eq!(elements[250..254], [40.0, 40.0, 40.0, 40.0]);
    assert_eq!(elements[254..256], [-1.0, -1.0]);
    let steps = gradient_elements(&vec![(0u8, 0u32)], 999, &|_: &u32, _: &u32, step: u8, distance: u8| {
        step as u32 * 1000 + distance as u32
    });
    assert_eq!(steps[0], 254);
    assert_eq!(steps[253], 253_254);
    assert_eq!(steps[254], 999);
    let none = gradient_elements(&Vec::<(u8, u8)>::new(), 7, &|a: &u8, _: &u8, _: u8, _: u8| *a);
    assert_eq!(none, vec![7u8; 256]);
}

#[test]
fn fresh_model_takes_the_material_its_voxels_call_for() {
    let mut ior = no_entries();
    ior[1] = Some(1.5);
    let mut model = VoxelData::new(UVec3::new(4, 2, 3), true);
    assert_eq!(material_kind(&model.remesh(&ior, &no_entries())), None);
    model.set_voxel(Voxel(1), IVec3::new(0, 0, 0)).unwrap();
    assert_eq!(
        material_kind(&model.remesh(&ior, &no_entries())),
        Some(MaterialKind::Opaque)
    );
    model.set_voxel(Voxel(2), IVec3::new(1, 0, 0)).unwrap();
    assert_eq!(
        material_kind(&model.remesh(&ior, &no_entries())),
        Some(MaterialKind::Translucent)
    );
    assert_eq!(model.thickness(), 2);
    assert_eq!(model.inner_size(), UVec3::new(4, 2, 3));
    let bare = VoxelData::new(UVec3::new(4, 1, 3), false);
    assert_eq!(bare.inner_size(), UVec3::new(2, 0, 1));
    assert_eq!(bare.thickness(), 1);
}
