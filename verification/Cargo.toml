[package]
name = "aip_oidc"
version = "0.1.0"
edition = "2021"
publish = false

[dependencies]
axum = "0.8"
bytes = "1"
chrono = "0.4"
object_store = { version = "0.12", features = ["aws"] }
serde = { version = "1", features = ["derive"] }
serde_json = "1"
tracing = "0.1"
