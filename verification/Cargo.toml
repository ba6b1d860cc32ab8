[package]
name = "n3rgy_client"
version = "0.1.0"
edition = "2021"
publish = false

[dependencies]
serde = "*"
serde_json = "*"
url = "*"
reqwest = { version = "*", default-features = false }
