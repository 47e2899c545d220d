[package]
name = "monitoring_client"
version = "0.1.0"
edition = "2021"
publish = false

[dependencies]
chrono = "=0.4.45"
http = "=1.5.0"
ed25519-dalek = "=0.9.1"
sha2 = "=0.8.2"
rand = "=0.6.5"
reqwest = { version = "=0.12.28", default-features = false, features = ["blocking", "json"] }
serde = { version = "=1.0.229", features = ["derive"] }
serde_json = "=1.0.154"
futures = "0.1"
futures-timer = "0.1"
