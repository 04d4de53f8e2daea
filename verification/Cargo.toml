[package]
name = "video_platform"
version = "0.1.0"
edition = "2021"
publish = false

[dependencies]
serde_json = "=1.0.154"
base64 = "0.22"
uuid = { version = "1", features = ["v4"] }
