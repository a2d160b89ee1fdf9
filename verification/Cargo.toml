[package]
name = "snocat"
version = "0.1.0"
edition = "2021"
publish = false

[dependencies]
futures = "0.3"
tokio-stream = "0.1"
quinn = "0.7"
serde = { version = "1", features = ["derive"] }
