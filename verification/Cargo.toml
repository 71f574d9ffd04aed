[package]
name = "niimbot_rs"
version = "0.1.0"
edition = "2021"
publish = false

[dependencies]
log = "0.4"
serialport = { version = "4", default-features = false }
thiserror = "2"
tokio = { version = "1", features = ["time", "io-util", "macros", "rt"] }
tokio-serial = { version = "5", default-features = false }
