[package]
name = "bevy_ta"
version = "0.1.0"
edition = "2021"
publish = false

[dependencies]
bevy = { version = "0.18", default-features = false }
ron = "*"
serde = { version = "1", features = ["derive"] }
serde_json = "1"
