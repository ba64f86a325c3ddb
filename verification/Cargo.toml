[package]
name = "condition_oracle"
version = "0.1.0"
edition = "2021"
publish = false

[dependencies]
hex = "0.4"
near-sdk = { version = "5", features = ["unit-testing"] }
serde = { version = "1", features = ["derive"] }
sha3 = "0.10"
