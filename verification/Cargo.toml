[package]
name = "pagi_api"
version = "0.1.0"
edition = "2021"
publish = false

[dependencies]
dotenvy = "*"
serde = { version = "*", features = ["derive"] }
reqwest = { version = "*", default-features = false, features = ["json", "rustls-tls"] }
