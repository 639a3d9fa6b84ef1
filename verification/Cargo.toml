[package]
name = "cheat_codes"
version = "0.1.0"
edition = "2021"
publish = false

[dependencies]
rand = "=0.8.8"
bevy = { version = "=0.6.1", default-features = false, features = ["render"] }
bevy_rapier2d = "=0.12.1"
rapier2d = { version = "=0.12.0-alpha.0", default-features = false, features = ["dim2", "f32"] }
