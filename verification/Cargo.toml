[package]
name = "wwise_rank"
version = "0.1.0"
edition = "2021"
publish = false

[dependencies]
serde = { version = "1", features = ["derive"] }
serde_json = "1"
tokio = { version = "1", features = ["net", "sync", "time", "rt", "macros"] }
waapi-rs = "0.3"
