[package]
name = "stream_fetch"
version = "0.1.0"
edition = "2021"
publish = false

[dependencies]
bytes = "1"
const_format = "0.2"
reqwest = "0.11"
tokio = { version = "1", features = ["full"] }
