[package]
name = "job_dispatcher"
version = "0.1.0"
edition = "2021"
publish = false

[dependencies]
tokio = { version = "=1.53.2", features = ["process", "rt", "time", "fs", "io-util"] }
async-process = { version = "=2.5.0" }
