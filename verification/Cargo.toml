[package]
name = "twelite_serial"
version = "0.1.0"
edition = "2021"
publish = false

[dependencies]
anyhow = "*"
clap = { version = "*", features = ["derive", "env"] }
reqwest = { version = "*", default-features = false, features = ["multipart"] }
serialport = { version = "*", default-features = false }
tokio = { version = "*", features = ["rt", "macros"] }
