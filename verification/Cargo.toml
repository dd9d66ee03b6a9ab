[package]
name = "beer_pong"
version = "0.1.0"
edition = "2021"
publish = false

[dependencies]
bevy = { version = "=0.10.1", default-features = false, features = ["bevy_asset", "bevy_core_pipeline", "bevy_gltf", "bevy_pbr", "bevy_render", "bevy_scene", "bevy_winit", "png", "x11"] }
bevy_egui = { version = "0.20", default-features = false, features = ["default_fonts"] }
bevy_panorbit_camera = "0.5"
bevy_rapier3d = "0.21"
lazy_static = "1.4"
