[package]
name = "listener_operator"
version = "0.1.0"
edition = "2021"
publish = false

[dev-dependencies]
anyhow = "1"
