[package]
name = "niwatori"
version = "0.1.0"
edition = "2021"
publish = false

[dependencies]
aes-gcm = "=0.11.1"
base62 = "=2.2.6"
chrono = "=0.4.45"
chrono-tz = "=0.10.4"
hex = "=0.4.3"
hmac = "=0.13.0"
jsonwebtoken = { version = "=11.1.0", features = ["rust_crypto"] }
rand = "=0.10.3"
serde_json = "=1.0.151"
sha2 = "=0.11.0"
