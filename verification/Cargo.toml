[package]
name = "fteepee"
version = "0.1.0"
edition = "2021"
publish = false

[dependencies]
tokio = { version = "1", features = ["net", "io-util", "rt"] }
bytes = "1"
