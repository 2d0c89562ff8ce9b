[package]
name = "botfair"
version = "0.4.0"
edition = "2021"
publish = false

[dependencies]
rand = "0.8"
serde = { version = "1", features = ["derive"] }
serde_json = "1"
reqwest = { version = "0.12", default-features = false, features = ["blocking", "json", "rustls-tls"] }
http = "1"
log = "0.4"
env_logger = "0.11"
