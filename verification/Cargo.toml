[package]
name = "tokio_eld"
version = "0.1.0"
edition = "2021"
publish = false

[dependencies]
hdrhistogram = { version = "7", default-features = false }
tokio = { version = "1", features = ["rt", "time"] }
