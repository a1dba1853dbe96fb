[package]
name = "site_backend"
version = "0.1.0"
edition = "2021"
publish = false

[dependencies]
base64_light = "*"
actix-files = "0.6"
actix-web = "4"
figment = { version = "0.10", features = ["toml"] }
lazy_static = "1"
redis = { version = "*", features = ["tokio-comp"] }
reqwest = { version = "0.12", default-features = false, features = ["rustls-tls"] }
rustls = { version = "0.23", default-features = false, features = ["std", "ring"] }
serde = { version = "1", features = ["derive"] }
serde_json = "1"
struson = { version = "*", features = ["simple-api"] }
