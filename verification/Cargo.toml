[package]
name = "sagascript"
version = "0.1.0"
edition = "2021"
publish = false

[dependencies]
uuid = { version = "=1.27.0", features = ["v4"] }
dirs = "=5.0.1"
