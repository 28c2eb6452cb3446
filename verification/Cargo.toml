[package]
name = "broker"
version = "0.1.0"
edition = "2021"
publish = false

[dependencies]
druid = { version = "0.8", features = ["im"] }
im = "15"
tokio = { version = "1", features = ["rt", "sync"] }
