[package]
name = "roids"
version = "0.1.0"
edition = "2021"
publish = false

[dependencies]
bevy = { version = "0.17", default-features = false, features = ["std", "bevy_state", "bevy_window", "bevy_pbr", "bevy_ui", "bevy_text", "bevy_gltf", "bevy_scene", "bevy_log", "png"] }
bevy_common_assets = { version = "0.14", features = ["json"] }
bevy_rand = "0.12"
bevy_prng = { version = "0.12", features = ["wyrand"] }
rand = "0.9"
serde = { version = "1", features = ["derive"] }
bitmask-enum = "2"
strum_macros = "0.27"
