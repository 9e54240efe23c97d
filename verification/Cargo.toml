[package]
name = "wallet_session"
version = "0.1.0"
edition = "2021"
publish = false

[dependencies]
http = "=1.5.0"
lazy_static = "=1.5.1"
tokio = { version = "=1.54.1", features = ["rt-multi-thread"] }
zingolib = "=7.0.0"
