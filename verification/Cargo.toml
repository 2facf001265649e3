[package]
name = "square_api_client"
version = "0.1.0"
edition = "2021"
publish = false

[dependencies]
log = "*"
reqwest = { version = "*", default-features = false }
serde = { version = "*", features = ["derive"] }
