[package]
name = "snaxum"
version = "0.1.0"
edition = "2021"
publish = false

[dependencies]
serde_json = "1"
serde = { version = "1", features = ["derive"] }
axum = "0.8"
tokio = { version = "1", features = ["full"] }
pyo3 = "0.26"
crossbeam-channel = "0.5"
thiserror = "2"
tracing = "0.1"
tracing-subscriber = "0.3"
