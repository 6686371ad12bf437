[package]
name = "indexer_session"
version = "0.1.0"
edition = "2021"
publish = false

[dependencies]
bitcoin = "0.27"
futures = "0.3"
rand = "0.8"
tokio = { version = "1", features = ["full"] }
tokio-stream = "0.1"
