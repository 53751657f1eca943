[package]
name = "gittig"
version = "0.1.0"
edition = "2021"
publish = false

[dependencies]
axum = "=0.7.9"
base64 = "=0.22.1"
serde = { version = "=1.0.229", features = ["derive"] }
tokio = { version = "=1.54.1", features = ["io-util", "macros", "net", "process", "rt-multi-thread", "sync"] }
tokio-util = { version = "0.7", features = ["io"] }
tower-http = { version = "=0.5.2", features = ["trace"] }
tracing-subscriber = "=0.3.23"
