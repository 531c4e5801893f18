[package]
name = "metrics-exporter-sentry-v2"
version = "0.1.0"
edition = "2021"
publish = false

[dependencies]
metrics = "0.24"
sentry = { version = "0.47", default-features = false, features = ["test"] }
serde_json = "1"
tokio = { version = "1", features = ["rt", "time"] }
tracing = "0.1"
