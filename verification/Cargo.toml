[package]
name = "terminai"
version = "0.1.0"
edition = "2021"
publish = false

[dependencies]
anyhow = "1"
cursive = { version = "0.21", default-features = false, features = ["crossterm-backend"] }
reqwest = { version = "0.12", default-features = false, features = ["blocking", "json"] }
serde = { version = "1", features = ["derive"] }
serde_json = "1"
