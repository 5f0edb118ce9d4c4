[package]
name = "async_map"
version = "0.1.0"
edition = "2021"
publish = false

[dependencies]
im = "15"
tokio = { version = "1", features = ["rt", "rt-multi-thread", "sync"] }
futures = "0.3"
