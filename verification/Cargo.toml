[package]
name = "nexus"
version = "0.1.0"
edition = "2021"
publish = false

[dependencies]
serde = { version = "1", features = ["derive"] }
serde_json = "1"
bevy = { version = "=0.13.2", default-features = false }
