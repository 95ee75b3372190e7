[package]
name = "big8k"
version = "0.1.0"
edition = "2021"
publish = false

[dependencies]
base64 = "=0.22.1"
serde = { version = "=1.0.229", features = ["derive"] }
serde_json = "=1.0.154"
network-interface = "=2.0.5"
image = { version = "=0.25.10", default-features = false, features = ["png", "bmp", "jpeg", "webp"] }
rfd = "=0.15.4"
ssh2 = "=0.9.6"
