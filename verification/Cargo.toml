[package]
name = "risk_normalization"
version = "0.1.0"
edition = "2021"
publish = false

[dependencies]
rand = "0.8"
statrs = "0.17"
csv = "1"
serde = { version = "1", features = ["derive"] }
