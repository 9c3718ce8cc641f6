[package]
name = "ourouc_sdk"
version = "0.1.0"
edition = "2021"
publish = false

[dependencies]
scraper = "*"
url = "2"
infer = "*"
serde = { version = "1", features = ["derive"] }
serde_json = "1"
reqwest = { version = "0.12", default-features = false, features = ["cookies", "rustls-tls"] }
tokio = { version = "1", features = ["macros", "rt-multi-thread"] }
anyhow = "1"
rpassword = "7"
