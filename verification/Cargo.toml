[package]
name = "mini_prompt"
version = "0.1.0"
edition = "2021"
publish = false

[dependencies]
markdown = "*"
reqwest = { version = "*", default-features = false, features = ["blocking", "json"] }
serde = { version = "*", features = ["derive"] }
serde_json = "*"
