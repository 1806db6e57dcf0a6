[package]
name = "what_server"
version = "0.1.0"
edition = "2021"
publish = false

[dependencies]
fancy-regex = "*"
regex = "*"
jsonpath-rust = "*"
serde_json = "*"
serde = { version = "*", features = ["derive"] }
futures = "*"
