[package]
name = "ime_sync"
version = "0.1.0"
edition = "2021"
publish = false

[dependencies]
toml = "=1.1.8"
zbus = "=5.19.0"
core-foundation = "=0.10.1"
serde = { version = "1", features = ["derive"] }
