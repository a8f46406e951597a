[package]
name = "shoot"
version = "0.1.0"
edition = "2021"
publish = false

[dependencies]
rand = "0.9"
bevy = { version = "0.17", default-features = false, features = ["std", "bevy_state"] }
serde = { version = "1", features = ["derive"] }
serde_json = "1"
dirs = "*"
log = "0.4"
