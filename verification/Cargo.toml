[package]
name = "bullrs"
version = "0.1.0"
edition = "2021"
publish = false

[dependencies]
anyhow = "=1.0.104"
bon = "=3.10.3"
chrono = "=0.4.45"
chrono-tz = "=0.10.4"
croner = "=4.0.2"
dashmap = "=6.2.1"
deadpool = "=0.13.1"
deadpool-redis = "=0.23.1"
env_logger = "=0.11.11"
error_set = "=0.9.2"
humantime = "=2.4.0"
lazy_static = "=1.5.1"
log = "=0.4.35"
nanoid = "=0.5.0"
nutype = { version = "=0.8.0", features = ["serde"] }
redis = { version = "=1.8.1", features = ["tokio-comp", "aio"] }
rmp-serde = "=1.3.1"
serde = { version = "=1.0.229", features = ["derive"] }
serde_json = "=1.0.154"
thiserror = "=2.0.21"
tokio = { version = "=1.54.1", features = ["full"] }
tracing = "=0.1.44"
uuid = { version = "=1.29.0", features = ["v4"] }
