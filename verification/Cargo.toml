[package]
name = "bevy_camera_shake"
version = "0.1.0"
edition = "2021"
publish = false

[dependencies]
bevy = { version = "0.10", default-features = false, features = ["bevy_asset", "bevy_core_pipeline", "bevy_render"] }
noise = "0.8"
rand = "0.8"
