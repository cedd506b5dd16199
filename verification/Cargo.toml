[package]
name = "nlyzer"
version = "0.1.0"
edition = "2021"
publish = false

[dependencies]
mlua = { version = "*", features = ["lua54", "vendored"] }
pcap = "*"
tokio = { version = "*", features = ["full"] }
