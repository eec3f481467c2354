[package]
name = "gw2api_rs"
version = "0.1.0"
edition = "2021"
publish = false

[dependencies]
serde_json = "1"
serde = { version = "1", features = ["derive"] }
hyper = { version = "0.14", features = ["client", "http1", "http2", "tcp"] }
hyper-tls = "0.5"
tokio = { version = "1", features = ["rt", "time", "net"] }
chrono = { version = "0.4", features = ["serde"] }
thiserror = "1"
