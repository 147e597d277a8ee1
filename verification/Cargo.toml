[package]
name = "msger"
version = "0.1.0"
edition = "2021"
publish = false

[dependencies]
async-std = { version = "=1.13.2", features = ["attributes"] }
futures = "=0.3.34"
serde_json = "=1.0.151"
