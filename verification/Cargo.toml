[package]
name = "task_runner"
version = "0.1.0"
edition = "2021"
publish = false

[dependencies]
napi = { version = "2", default-features = false, features = ["napi4", "tokio_rt"] }
napi-derive = { version = "2" }
tokio = { version = "1", features = ["process"] }
