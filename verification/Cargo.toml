[package]
name = "blisspaper"
version = "0.1.0"
edition = "2021"
publish = false

[dependencies]
base64 = "*"
log = "*"
flexi_logger = "*"
serde = { version = "*", features = ["derive"] }
serde_yaml = "*"
reqwest = { version = "*", default-features = false, features = ["blocking", "json", "rustls-tls"] }
