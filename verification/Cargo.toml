[package]
name = "dao_game"
version = "0.1.0"
edition = "2021"
publish = false

[dependencies]
avian3d = { version = "0.6", default-features = false, features = ["3d", "f32", "parry-f32", "default-collider"] }
bevy = { version = "0.18", default-features = false }
