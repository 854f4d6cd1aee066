[package]
name = "token_analyzer"
version = "0.1.0"
edition = "2021"
publish = false

[dependencies]
regex = "1"
anyhow = "1"
ignore = "0.4"
parking_lot = "0.12"
rayon = "1"
serde_json = "1"
