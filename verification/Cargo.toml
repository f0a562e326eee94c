[package]
name = "x402_facilitator"
version = "0.1.0"
edition = "2021"
publish = false

[dependencies]
axum = "0.8"
serde = { version = "1", features = ["derive"] }
serde_json = "1"
tokio = { version = "1", features = ["rt"] }
tower-http = { version = "0.6", features = ["fs"] }
tracing = "0.1"
