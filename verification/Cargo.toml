[package]
name = "fswatch"
version = "0.1.0"
edition = "2021"
publish = false

[dependencies]
tokio = { version = "1", features = ["io-util", "process", "rt", "sync", "time"] }
tokio-stream = { version = "0.1", default-features = false }
