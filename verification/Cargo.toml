[package]
name = "feishu_sdk"
version = "0.1.0"
edition = "2021"
publish = false

[dependencies]
base64 = "*"
chrono = { version = "*", default-features = false, features = ["clock"] }
hmac = "*"
reqwest = { version = "*", default-features = false }
serde = { version = "*", features = ["derive"] }
serde_json = "*"
sha2 = "*"
