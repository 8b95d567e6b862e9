[package]
name = "recorder"
version = "0.1.0"
edition = "2021"
publish = false

[dependencies]
cpal = "0.17"
crossbeam-channel = "0.5"
ringbuf = "0.4"
tokio = { version = "1", default-features = false, features = ["sync"] }
