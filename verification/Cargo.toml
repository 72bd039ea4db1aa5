[package]
name = "bevy_vox_scene"
version = "0.1.0"
edition = "2021"
publish = false

[dependencies]
bevy = { version = "0.16", default-features = false, features = ["std", "bevy_color"] }
block-mesh = "*"
dot_vox = "*"
ndshape = "*"
