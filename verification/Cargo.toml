[package]
name = "local_rt"
version = "0.1.0"
edition = "2021"
publish = false

[dependencies]
futures = "0.1"
tokio-current-thread = "0.1"
tokio-executor = "0.1"
tokio-reactor = "0.1"
tokio-timer = "0.2"
