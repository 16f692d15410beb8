[package]
name = "sitestat"
version = "0.1.0"
edition = "2021"
publish = false

[dependencies]
chrono = "=0.4.45"

[dev-dependencies]
serde_json = "=1.0.151"
