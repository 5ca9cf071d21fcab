[package]
name = "moonbase"
version = "0.1.0"
edition = "2021"
publish = false

[dependencies]
anyhow = "1"
crossbeam = "0.8"
futures = "0.3"
tokio = { version = "1", features = ["rt", "rt-multi-thread", "time"] }
tower = "0.4"
