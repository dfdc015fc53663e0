[package]
name = "skyway_webrtc_gateway_api"
version = "0.1.0"
edition = "2021"
publish = false

[dependencies]
reqwest = { version = "0.12", default-features = false, features = ["json"] }
serde = { version = "1", features = ["derive"] }
serde_json = "1"
futures = "0.3"
tokio = { version = "1", features = ["rt-multi-thread", "macros", "io-std", "io-util", "sync", "time"] }
toml = "0.8"
log = "0.4"
env_logger = "0.11"
once_cell = "1"
thiserror = "1"
