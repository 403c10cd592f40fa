[package]
name = "match_ticket"
version = "0.1.0"
edition = "2021"
publish = false

[dependencies]
actix-web = { version = "=4.18.1", default-features = false, features = ["macros"] }
chrono = { version = "=0.4.45", default-features = false, features = ["std"] }
image = "=0.24.9"
image-builder = "=1.0.2"
ipfs-api-backend-hyper = { version = "=0.5.0", features = ["with-hyper-rustls"] }
reqwest = { version = "=0.11.27", default-features = false, features = ["rustls-tls"] }
serde = { version = "=1.0.229", features = ["derive"] }
serde_json = "=1.0.154"
