[package]
name = "bawawa"
version = "0.1.0"
edition = "2021"
publish = false

[dependencies]
tokio = { version = "1", features = ["rt", "process"] }
os_pipe = "1"
