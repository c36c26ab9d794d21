[package]
name = "mirrorcast"
version = "0.1.0"
edition = "2021"
publish = false

[dependencies]
anyhow = "=1.0.104"
chrono = { version = "=0.4.45", default-features = false, features = ["std", "now"] }
env_logger = { version = "=0.11.11", default-features = false }
futures = "=0.3.34"
image = { version = "=0.25.10", default-features = false }
local-ip-address = "=0.6.13"
log = "=0.4.34"
qrcode = { version = "=0.14.1", default-features = false, features = ["image"] }
serde = { version = "=1.0.229", features = ["derive"] }
serde_json = "=1.0.154"
tokio = { version = "=1.54.1", features = ["rt-multi-thread", "net", "sync", "time", "macros"] }
tokio-tungstenite = "=0.21.0"
uuid = { version = "=1.29.0", features = ["v4"] }
webrtc = "=0.11.0"
