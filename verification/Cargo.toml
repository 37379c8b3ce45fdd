[package]
name = "ws_endpoint"
version = "0.1.0"
edition = "2021"
publish = false

[dependencies]
base64 = "0.13"
hex = "0.4"
httparse = "1"
rust-crypto = "0.2"
