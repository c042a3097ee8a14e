[package]
name = "pve_sdk_rs"
version = "0.1.0"
edition = "2021"
publish = false

[dependencies]
percent-encoding = "2"
url = "2"
serde = { version = "1", features = ["derive"] }
serde_json = "1"
thiserror = "2"
reqwest = { version = "0.12", default-features = false, features = ["multipart", "stream", "rustls-tls"] }
tokio = { version = "1", features = ["fs", "time", "rt", "macros"] }
tokio-util = { version = "0.7", features = ["io"] }
