[package]
name = "anychain-bitcoin"
version = "0.1.0"
edition = "2021"
publish = false

[dependencies]
anychain-core = "*"
serde = { version = "1", features = ["derive"] }
