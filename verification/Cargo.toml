[package]
name = "gradewise_backend"
version = "0.1.0"
edition = "2021"
publish = false

[dependencies]
serde_json = "1"
axum = "0.8"
reqwest = { version = "0.12", default-features = false }
tokio = { version = "1", features = ["macros", "rt-multi-thread", "net"] }
