[package]
name = "openvx"
version = "0.1.0"
edition = "2021"
publish = false

[dependencies]
error-chain = "=0.12.4"
