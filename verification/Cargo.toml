[package]
name = "system_generation"
version = "0.1.0"
edition = "2021"
publish = false

[dependencies]
anyhow = "1"
log = "0.4"
nix = { version = "*", features = ["hostname"] }
serde = { version = "1", features = ["derive"] }
serde_json = "1"
