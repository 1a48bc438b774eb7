[package]
name = "terminal_velocity"
version = "0.1.0"
edition = "2021"
publish = false

[dependencies]
cpal = "0.15"
crossbeam-channel = "0.5"
midir = "0.9"
rand = "0.8"
serde = { version = "1", features = ["derive"] }
serde_json = "1"
