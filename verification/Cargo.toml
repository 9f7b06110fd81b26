[package]
name = "io-process"
version = "0.1.0"
edition = "2021"
publish = false

[dependencies]
log = "0.4"
serde = "1"
tokio = { version = "1", default-features = false, features = ["process"] }
tracing = "0.1"
