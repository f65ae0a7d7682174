[package]
name = "vce_rules"
version = "0.1.0"
edition = "2021"
publish = false

[dependencies]
base64 = "=0.22.1"
fastly = "=0.13.1"
flate2 = "=1.1.10"
hex = "=0.4.3"
hmac-sha256 = "=1.1.15"
ipnet = "=2.12.2"
regex = "=1.13.1"
serde = { version = "=1.0.229", features = ["derive"] }
serde_json = { version = "=1.0.154", features = ["preserve_order"] }
thiserror = "=2.0.21"

[dev-dependencies]
ron = "=0.12.2"
