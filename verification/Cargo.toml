[package]
name = "commit_prompt"
version = "0.1.0"
edition = "2021"
publish = false

[dependencies]
anyhow = "1"
dialoguer = { version = "0.11", features = ["fuzzy-select", "history"] }
edit = "0.1"

[dev-dependencies]
regex = "1"
