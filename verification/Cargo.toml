[package]
name = "tweety_rs"
version = "0.1.0"
edition = "2021"
publish = false

[dependencies]
serde = { version = "=1.0.229", features = ["derive"] }
serde_json = "=1.0.151"
url = "=2.5.8"
thiserror = "=2.0.21"
reqwest = { version = "=0.12.28", default-features = false, features = ["json", "multipart"] }
reqwest-oauth1 = "=0.3.0"
