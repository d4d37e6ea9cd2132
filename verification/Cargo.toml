[package]
name = "stun_binding"
version = "0.1.0"
edition = "2021"
publish = false

[dependencies]
anyhow = "1"
failure = "0.1"
