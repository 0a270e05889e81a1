[package]
name = "cap_electron_capture"
version = "0.1.0"
edition = "2021"
publish = false

[dependencies]
anyhow = "1"
aws-config = "1"
aws-sdk-s3 = "1"
cidre = "*"
core-graphics = "*"
cpal = "0.15"
env_logger = { version = "0.11", default-features = false }
ffmpeg-next = "*"
futures = "0.3"
hound = "=3.5.1"
log = "0.4"
napi = { version = "2", features = ["async"] }
napi-derive = "2"
serde = { version = "1", features = ["derive"] }
serde_json = "1"
thiserror = "1"
tokio = { version = "1", features = ["rt", "sync", "time", "macros"] }
uuid = { version = "=1.29.0", features = ["v4"] }
