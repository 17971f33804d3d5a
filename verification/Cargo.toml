[package]
name = "merlo_movement"
version = "0.1.0"
edition = "2021"
publish = false

[dependencies]
bevy = { version = "=0.17.3", default-features = false, features = ["std", "bevy_animation", "bevy_asset", "bevy_camera", "bevy_color", "bevy_core_pipeline", "bevy_light", "bevy_log", "bevy_mesh", "bevy_pbr", "bevy_render", "bevy_scene", "bevy_state", "bevy_window", "multi_threaded"] }
bevy_rapier3d = { version = "=0.32.0", default-features = false, features = ["dim3"] }
bevy_replicon = { version = "=0.36.1" }
bevy_replicon_renet = { version = "=0.12.0" }
clap = { version = "=4.6.7", default-features = false, features = ["std", "derive", "help", "usage", "error-context"] }
serde = { version = "=1.0.229", features = ["derive"] }
