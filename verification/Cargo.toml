[package]
name = "tuya_outlets"
version = "0.1.0"
edition = "2021"
publish = false

[dependencies]
serde_json = "*"
serde = { version = "*", features = ["derive"] }
rust-async-tuyapi = "*"
axum = "*"
tokio = { version = "*", features = ["macros", "rt-multi-thread", "net"] }
clap = { version = "*", features = ["derive"] }
log = "*"
metrics = "*"
metrics-exporter-prometheus = "*"
tracing-subscriber = "*"
