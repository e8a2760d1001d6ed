[package]
name = "simora"
version = "0.1.0"
edition = "2021"
publish = false

[dependencies]
regex = "1"
walkdir = "2"
serde = { version = "1", features = ["derive"] }
serde_json = "1"
anyhow = "1"
