[package]
name = "tello_link"
version = "0.1.0"
edition = "2021"
publish = false

[dependencies]
base64 = "=0.21.7"
dirs = "=5.0.1"
serde = { version = "=1.0.229", features = ["derive"] }
tokio = { version = "1", features = ["time"] }
