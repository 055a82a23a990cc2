[package]
name = "scau_login"
version = "0.1.0"
edition = "2021"
publish = false

[dependencies]
anyhow = "1"
base64 = "0.22"
chrono = "0.4"
clap = { version = "4", features = ["derive"] }
num-bigint-dig = "0.8"
rand = "0.8"
reqwest = { version = "0.12", default-features = false, features = ["cookies", "json", "rustls-tls"] }
rsa = "0.9"
serde = { version = "1", features = ["derive"] }
serde_json = "1"
tokio = { version = "1", features = ["macros", "rt-multi-thread"] }
