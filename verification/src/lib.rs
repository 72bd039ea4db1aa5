//! Voxel grids, their coordinate conventions, surface extraction into quads,
//! and region-scoped editing, with machine-checked contracts.

pub mod cloud;
pub mod data;
pub mod generate;
pub mod layout;
pub mod math;
pub mod mesh;
pub mod modify;
pub mod palette;
pub mod scene;
pub mod shape;
pub mod space;
pub mod voxel;
