[package]
name = "frame_video"
version = "0.1.0"
edition = "2021"
publish = false

[dependencies]
base64 = "=0.13.1"
jemallocator = "=0.5.4"
jpeg-decoder = { version = "=0.3.2", default-features = false, features = ["platform_independent"] }
mimalloc = "=0.1.52"
mp4 = "=0.14.0"
napi = "=3.15.0"
napi-derive = "=3.6.13"
serde = { version = "=1.0.229", features = ["derive"] }
serde_derive = "=1.0.229"
serde_json = "=1.0.154"
x264-sys = "=0.2.3"

[dev-dependencies]
jpeg-encoder = "=0.7.1"
