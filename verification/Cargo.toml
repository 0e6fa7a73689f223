[package]
name = "httprint"
version = "0.1.0"
edition = "2021"
publish = false

[dependencies]
tiny_http = { version = "0.12", default-features = false }
