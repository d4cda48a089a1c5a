[package]
name = "sdr_routing"
version = "0.1.0"
edition = "2021"
publish = false

[dependencies]
tokio = { version = "*", features = ["rt", "net", "sync", "time"] }
rustfft = "*"
