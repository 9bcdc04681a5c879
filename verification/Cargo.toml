[package]
name = "notypo"
version = "0.1.0"
edition = "2021"
publish = false

[dependencies]
objc = "0.2"
serde_json = "1"
