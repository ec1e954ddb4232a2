[package]
name = "api_core"
version = "0.1.0"
edition = "2021"
publish = false

[dependencies]
uuid = "*"
validator = "*"
argon2 = "*"

[dev-dependencies]
serde_json = "*"
