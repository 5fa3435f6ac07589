[package]
name = "chain_game"
version = "0.1.0"
edition = "2021"
publish = false

[dependencies]
rand = "0.8"
bevy = { version = "0.16", default-features = false, features = ["std", "bevy_asset", "bevy_color", "bevy_core_pipeline", "bevy_render", "bevy_sprite", "bevy_text", "bevy_ui", "bevy_window", "bevy_state"] }
avian2d = { version = "0.3", default-features = false, features = ["2d", "f32", "parry-f32"] }
bevy_ecs_ldtk = "0.12"
pyri_state = "0.4"
