[package]
name = "path_recorder"
version = "0.1.0"
edition = "2021"
publish = false

[dependencies]
error-chain = "0.12"
rosrust = "0.9"
rosrust_msg = "0.1"
serde = { version = "1", features = ["derive"] }
serde_json = { version = "1", features = ["float_roundtrip", "preserve_order"] }
