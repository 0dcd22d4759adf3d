[package]
name = "computemodule"
version = "0.1.0"
edition = "2021"
publish = false

[dependencies]
base64 = "=0.23.1"
image = "=0.24.9"
forgery-detection-zero = "=0.3.0"
serde = { version = "*", features = ["derive"] }
serde_json = "*"
reqwest = { version = "*", default-features = false, features = ["blocking", "json", "rustls-tls"] }
log = "*"
env_logger = "*"
