[package]
name = "notion"
version = "0.1.0"
edition = "2021"
publish = false

[dependencies]
reqwest = { version = "0.11" }
serde_json = { version = "1" }
