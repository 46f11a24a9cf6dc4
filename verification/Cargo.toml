[package]
name = "ichor"
version = "0.1.0"
edition = "2021"
publish = false

[dependencies]
reqwest = { version = "0.11", features = ["json"] }
serde = "1"
