[package]
name = "mcprs"
version = "0.1.0"
edition = "2021"
publish = false

[dependencies]
serde_json = "1"
uuid = { version = "1", features = ["v4"] }
serde = { version = "1", features = ["derive"] }
tokio = { version = "1", features = ["full"] }
tokio-stream = "0.1"
futures = "0.3"
axum = { version = "0.6", features = ["headers"] }
reqwest = { version = "0.11", default-features = false, features = ["json", "stream"] }
async-trait = "0.1"
thiserror = "1"
tracing = "0.1"
tracing-subscriber = "0.3"
bytes = "1"
mockall = "0.11"
