[package]
name = "tallr"
version = "0.1.0"
edition = "2021"
publish = false

[dependencies]
hex = "0.4"
rand = "0.8"
uuid = { version = "1", features = ["v4"] }
serde = { version = "1", features = ["derive"] }
serde_json = "1"
axum = "0.8"
tokio = { version = "1", features = ["net", "rt-multi-thread"] }
log = "0.4"
env_logger = "0.11"
chrono = "0.4"
once_cell = "1"
parking_lot = "0.12"
image = { version = "0.25", default-features = false, features = ["png"] }
