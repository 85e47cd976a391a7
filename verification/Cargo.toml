[package]
name = "traced_channel"
version = "0.1.0"
edition = "2021"
publish = false

[dependencies]
tokio = { version = "1", features = ["sync", "rt", "macros", "time"] }
tracing = "0.1"
uuid = { version = "1", features = ["v4"] }
pin-project = "1"
