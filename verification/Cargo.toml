[package]
name = "stream_runner"
version = "0.1.0"
edition = "2021"
publish = false

[dependencies]
anyhow = "1"
async-std = "1"
log = "0.4"
serde_json = "1"
tokio = { version = "1", features = ["io-util", "process", "rt", "time"] }
