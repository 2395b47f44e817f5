[package]
name = "kabipay"
version = "0.1.0"
edition = "2021"
publish = false

[dependencies]
rust_decimal = "=1.43.0"
hmac = "=0.12.1"
sha2 = "=0.10.9"
base64 = "=0.22.1"
urlencoding = "=2.1.3"
argon2 = { version = "=0.5.3", features = ["std"] }
uuid = { version = "=1.29.0", features = ["v4"] }
chrono = "=0.4.45"
serde = { version = "=1.0.229", features = ["derive"] }
serde_json = "=1.0.154"
anyhow = "=1.0.104"
tokio = { version = "=1.54.1", features = ["macros", "rt-multi-thread", "fs"] }
