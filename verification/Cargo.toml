[package]
name = "zini"
version = "0.1.0"
edition = "2021"
publish = false

[dependencies]
tokio = { version = "1", features = ["sync", "rt", "macros", "time"] }
anymap = "0.12"
rand = "0.8"
uuid = { version = "1", features = ["v4", "serde"] }
serde = { version = "1", features = ["derive"] }
serde_json = "1"
serde_cbor = "0.11"
http = "1"
tracing = "0.1"
futures = "0.3"
chrono = { version = "0.4", features = ["serde"] }
