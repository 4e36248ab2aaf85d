[package]
name = "cccs"
version = "0.1.0"
edition = "2021"
publish = false

[dependencies]
crc32fast = "=1.5.2"
serde_json = { version = "=1.0.151", features = ["float_roundtrip"] }
serde = { version = "=1.0.229", features = ["derive"] }
dirs = "=5.0.1"
