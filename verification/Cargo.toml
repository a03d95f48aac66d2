[package]
name = "bloodandbilgewater"
version = "0.1.0"
edition = "2021"
publish = false

[dependencies]
rand = "0.8"
noise = "0.9"
serde = { version = "1", features = ["derive"] }
serde_json = "1"
image = { version = "0.25", default-features = false, features = ["png"] }
bevy = { version = "0.14", default-features = false }
