[package]
name = "private_publication"
version = "0.1.0"
edition = "2021"
publish = false

[dependencies]
hdi = "=0.2.6"
hdk = "=0.1.6"
holo_hash = { version = "=0.1.6", features = ["encoding"] }
rmp = "=0.8.10"
serde = { version = "1", features = ["derive"] }
