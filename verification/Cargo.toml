[package]
name = "rustspray"
version = "0.1.0"
edition = "2021"
publish = false

[dependencies]
anyhow = "=1.0.104"
chrono = { version = "=0.4.45", features = ["serde"] }
clap = { version = "=4.6.7", features = ["derive"] }
env_logger = "=0.11.11"
log = "=0.4.34"
ndarray = "=0.16.1"
opencv = "=0.88.9"
ort = "=2.0.0-rc.15"
rppal = "=0.22.1"
rscam = "=0.5.5"
serde = { version = "=1.0.229", features = ["derive"] }
serde_json = "=1.0.154"
thiserror = "=1.0.69"
toml = "=0.8.23"
uuid = { version = "=1.29.0", features = ["v4"] }
