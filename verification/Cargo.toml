[package]
name = "smartcat"
version = "0.1.0"
edition = "2021"
publish = false

[dependencies]
serde = { version = "1", features = ["derive"] }
serde_json = "=1.0.154"
toml = "0.8"
ureq = "=2.12.1"
