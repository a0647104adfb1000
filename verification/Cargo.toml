[package]
name = "reestream"
version = "0.1.0"
edition = "2021"
publish = false

[dependencies]
url = "=2.5.8"
uuid = { version = "=1.29.0", features = ["v4"] }
serde = { version = "=1.0.229", features = ["derive"] }
serde_json = "=1.0.154"
toml = "=0.8.23"
tokio = { version = "=1.54.1", features = ["full"] }
which = "=8.0.6"
sha2 = "=0.10.9"
hex = "=0.4.3"
hmac = "0.12"
aes-gcm = "0.10"

[dev-dependencies]
bytes = "=1.12.1"
