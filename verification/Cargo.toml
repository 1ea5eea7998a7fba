[package]
name = "wifi_reporter"
version = "0.1.0"
edition = "2021"
publish = false

[dependencies]
anyhow = "*"
embedded-svc = "*"
esp-idf-svc = "*"
log = "*"
reqwest = { version = "*", default-features = false }
rustls = { version = "*", default-features = false, features = ["std"] }
rustls-rustcrypto = "=0.0.2-alpha"
tokio = { version = "*", default-features = false, features = ["rt", "time"] }
