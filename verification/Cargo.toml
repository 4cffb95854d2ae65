[package]
name = "twitchemotes"
version = "0.1.0"
edition = "2021"
publish = false

[dependencies]
reqwest = { version = "=0.12.28", default-features = false, features = ["blocking", "rustls-tls"] }
serde_json = "=1.0.154"

[dev-dependencies]
http = "=1.5.0"
