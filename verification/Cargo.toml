[package]
name = "dragon_grid"
version = "0.1.0"
edition = "2021"
publish = false

[dependencies]
bevy = { version = "0.9", default-features = false, features = ["bevy_asset", "bevy_core_pipeline", "bevy_render", "bevy_sprite", "bevy_winit", "png", "x11"] }
bevy_asset_loader = { version = "0.14", features = ["2d", "stageless"] }
bevy_common_assets = { version = "0.4", features = ["json"] }
iyes_loopless = "0.9"
leafwing-input-manager = "0.7"
serde = { version = "1", features = ["derive"] }
