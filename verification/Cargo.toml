[package]
name = "step_loader"
version = "0.1.0"
edition = "2021"
publish = false

[dependencies]
bevy = { version = "0.17", default-features = false, features = ["bevy_asset", "bevy_render"] }
thiserror = "2"
