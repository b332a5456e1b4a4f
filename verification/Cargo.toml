[package]
name = "chat_relay"
version = "0.1.0"
edition = "2021"
publish = false

[dependencies]
env_logger = "=0.11.11"
log = "=0.4.34"
ollama-rs = { version = "0.2", default-features = false }
serde = { version = "=1.0.229", features = ["derive"] }
serde_yaml = "=0.9.34"
serenity = { version = "=0.12.5", default-features = false, features = ["cache", "client", "gateway", "http", "model", "rustls_backend"] }
tokio = { version = "=1.54.1", features = ["macros", "rt-multi-thread", "sync"] }
