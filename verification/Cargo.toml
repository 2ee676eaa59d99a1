[package]
name = "hlhsinfo_backend_server"
version = "0.1.0"
edition = "2021"
publish = false

[dependencies]
jsonwebtoken = "9"
lazy_static = "1"
openssl = "0.10"
reqwest = "0.11"
rocket = { version = "0.5", features = ["json"] }
scraper = "*"
serde = { version = "1", features = ["derive"] }
serde_json = "1"
serde_urlencoded = "0.7"
serde_yaml = "0.9"
tokio = { version = "1", features = ["macros"] }
url = "2"
