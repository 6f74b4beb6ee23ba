[package]
name = "smolkv"
version = "0.1.0"
edition = "2021"
publish = false

[dependencies]
serde = { version = "=1.0.229", features = ["derive"] }
serde_json = "=1.0.151"
bytes = "=1.12.1"
thiserror = "=1.0.69"
reqwest = { version = "=0.12.28", default-features = false, features = ["json", "multipart"] }
