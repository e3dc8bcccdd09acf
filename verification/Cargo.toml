[package]
name = "cosmos_submit"
version = "0.1.0"
edition = "2021"
publish = false

[dependencies]
cosmos-sdk-proto = "*"
tokio = { version = "*", features = ["time"] }
