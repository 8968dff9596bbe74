[package]
name = "exhibit"
version = "0.1.0"
edition = "2021"
publish = false

[dependencies]
base64 = "0.22"
env_logger = "0.11"
futures = "0.3"
jsonwebtoken = "9"
log = "0.4"
serde = { version = "1", features = ["derive"] }
serde_json = "1"
tokio = { version = "1", features = ["macros", "rt-multi-thread", "sync", "time"] }
tokio-stream = "0.1"
toml = "0.8"
uuid = { version = "1", features = ["v4"] }
warp = "0.3"
