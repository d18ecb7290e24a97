[package]
name = "grpc_server"
version = "0.1.0"
edition = "2021"
publish = false

[dependencies]
hound = "=3.5.1"
thiserror = "=2.0.21"
serde = { version = "=1.0.229", features = ["derive"] }
serde_json = "=1.0.154"
config = "=0.15.27"
anyhow = "=1.0.104"
log = "=0.4.35"
env_logger = "=0.11.11"
vosk = { version = "=0.3.1", features = ["batch"] }
