[package]
name = "eywa_axum"
version = "0.1.0"
edition = "2021"
publish = false

[dependencies]
axum = "0.8"
config = "0.15"
dotenvy = "0.15"
serde = { version = "1", features = ["derive"] }
serde_json = "1"
tokio = { version = "1", features = ["macros", "net", "rt-multi-thread"] }
tower = "0.5"
tower-http = { version = "0.6", features = ["compression-br", "compression-deflate", "compression-gzip", "cors", "normalize-path", "trace"] }
tracing = "0.1"
utoipa = { version = "5", features = ["uuid"] }
utoipa-axum = "0.2"
utoipa-scalar = { version = "0.3", features = ["axum"] }
uuid = { version = "1", features = ["serde", "v4"] }
