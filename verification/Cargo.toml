[package]
name = "crowbar"
version = "0.1.0"
edition = "2021"
publish = false

[dependencies]
cpython = "*"
cpython-json = "*"
serde_json = "1"
