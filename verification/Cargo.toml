[package]
name = "pilota"
version = "0.1.0"
edition = "2021"
publish = false

[dependencies]
bytes = "1"
faststr = "0.2"
linkedbytes = "0.1"
tokio = { version = "1", features = ["io-util"] }
