[package]
name = "phi_media"
version = "0.1.0"
edition = "2021"
publish = false

[dependencies]
uuid = { version = "=1.27.0", features = ["v4"] }
chrono = "=0.4.45"
ring = "=0.17.14"
tokio = { version = "=1.53.2", features = ["full"] }
ffmpeg-sidecar = "=2.6.0"
rand = "=0.10.3"

[dev-dependencies]
serde_json = "=1.0.151"
