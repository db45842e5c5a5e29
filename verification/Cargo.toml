[package]
name = "tower_defense"
version = "0.1.0"
edition = "2021"
publish = false

[dependencies]
serde = { version = "1", features = ["derive"] }
bevy = { version = "0.15", default-features = false, features = ["bevy_state", "bevy_pbr", "bevy_ui", "bevy_text", "bevy_window", "bevy_render", "bevy_core_pipeline", "bevy_asset", "default_font"] }
