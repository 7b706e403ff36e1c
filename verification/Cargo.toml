[package]
name = "service_rs"
version = "0.1.0"
edition = "2021"
publish = false

[dependencies]
futures = "0.3"
tokio = { version = "1", features = ["sync", "macros", "rt", "rt-multi-thread", "time"] }
