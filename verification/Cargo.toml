[package]
name = "pleme-service-foundation"
version = "0.1.0"
edition = "2021"
publish = false

[dependencies]
async-trait = "0.1"
axum = "*"
futures = "0.3"
pleme-config = "*"
serde = { version = "1", features = ["derive"] }
serde_json = "1"
signal-hook = "*"
signal-hook-tokio = { version = "*", features = ["futures-v0_3"] }
thiserror = "*"
tokio = { version = "1", features = ["full"] }
tower-http = { version = "*", features = ["compression-gzip", "timeout", "trace"] }
tracing = "0.1"
tracing-subscriber = { version = "0.3", features = ["env-filter"] }
