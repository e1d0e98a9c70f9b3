[package]
name = "auction_backend"
version = "0.1.0"
edition = "2021"
publish = false

[dependencies]
candid = "0.9"
chrono = { version = "0.4", default-features = false, features = ["std"] }
ic-cdk = "0.10"
ic-stable-structures = "0.5"
serde = "1"
