[package]
name = "pretty_rest"
version = "0.1.0"
edition = "2021"
publish = false

[dependencies]
url = "*"
serde = { version = "*", features = ["derive"] }
serde_json = "*"
serde_qs = "*"
anyhow = "*"
reqwest = { version = "*", default-features = false }
