[package]
name = "rustrait"
version = "0.1.0"
edition = "2021"
publish = false

[dependencies]
serde_json = "=1.0.154"
serde_yaml = "=0.9.34"
substrait = { version = "=0.65.0", features = ["protox", "serde"] }
