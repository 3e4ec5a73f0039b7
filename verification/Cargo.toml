[package]
name = "bevy_panini"
version = "0.1.0"
edition = "2021"
publish = false
rust-version = "1.95"

[dependencies]
bevy = { version = "=0.19.1", default-features = false, features = ["bevy_core_pipeline"] }
