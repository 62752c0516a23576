[package]
name = "steering"
version = "0.1.0"
edition = "2021"
publish = false

[dependencies]
rand = "0.9"
bevy = { version = "0.16", default-features = false, features = ["std", "async_executor", "bevy_asset", "bevy_color", "bevy_core_pipeline", "bevy_gizmos", "bevy_render", "bevy_sprite", "bevy_state", "bevy_text", "bevy_ui", "bevy_window"] }
avian2d = { version = "0.3", default-features = false, features = ["2d", "f32", "parry-f32"] }
bevy_rand = { version = "0.11", features = ["wyrand"] }
