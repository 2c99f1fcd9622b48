[package]
name = "chat_moderation"
version = "0.1.0"
edition = "2021"
publish = false

[dependencies]
serde_json = "=1.0.154"
unicode-segmentation = "=1.13.3"
serde = { version = "=1.0.229", features = ["derive"] }
anyhow = "=1.0.104"
tracing = "=0.1.44"
async-trait = "=0.1.92"
tokio = { version = "1", features = ["rt-multi-thread", "macros"] }
serenity = { version = "0.12", default-features = false, features = ["builder", "client", "gateway", "http", "model", "rustls_backend"] }
