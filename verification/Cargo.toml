[package]
name = "kubespark"
version = "0.1.0"
edition = "2021"
publish = false

[dependencies]
anyhow = "1"
chrono = "0.4"
dirs = "5"
env_logger = "0.11"
futures = "0.3"
k8s-openapi = { version = "0.25", features = ["latest"] }
kube = "1"
log = "0.4"
serde = { version = "1", features = ["derive"] }
serde_json = "1"
serde_yaml = "0.9"
tokio = { version = "1", features = ["rt-multi-thread", "sync", "macros"] }
