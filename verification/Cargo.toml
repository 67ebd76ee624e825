[package]
name = "papago_client"
version = "0.1.0"
edition = "2021"
publish = false

[dependencies]
base64 = "=0.23.1"
chrono = "=0.4.45"
hmac = "=0.13.0"
md-5 = "=0.11.0"
serde_json = "=1.0.151"
uuid = { version = "=1.27.0", features = ["v4"] }
reqwest = { version = "=0.13.5", features = ["blocking", "form"] }
