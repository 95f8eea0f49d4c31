[package]
name = "asocks5"
version = "0.1.0"
edition = "2021"

[dependencies]
byteorder = "1"
failure = "0.1"
tokio = { version = "1", features = ["net", "io-util"] }
