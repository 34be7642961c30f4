[package]
name = "mcsetup"
version = "0.1.0"
edition = "2021"
publish = false

[dependencies]
owo-colors = "*"
dialoguer = "*"
log = "*"
pretty_env_logger = "*"
reqwest = { version = "*", default-features = false, features = ["blocking", "json", "rustls-tls"] }
serde = { version = "*", features = ["derive"] }
