[package]
name = "test_server"
version = "0.1.0"
edition = "2021"
publish = false

[dependencies]
bytes = "1"
uuid = { version = "1", features = ["v4"] }
rsa = "0.9"
rand = "0.8"
serde_json = "1"
serde = { version = "1", features = ["derive"] }
thiserror = "1"
tokio = { version = "1", features = ["full"] }
toml = "0.8"
tracing = "0.1"
tracing-subscriber = "0.3"
env_logger = "0.11"
log = "0.4"
num_cpus = "1"
parking_lot = "0.12"
prometheus = { version = "0.13", default-features = false }
reqwest = { version = "0.12", default-features = false }
