[package]
name = "gradient_web"
version = "0.1.0"
edition = "2021"
publish = false

[dependencies]
base64 = "=0.22.1"
git-url-parse = "=0.4.6"
hex = "=0.4.3"
prometheus = { version = "=0.14.0", features = ["process"] }
rand = "=0.10.3"
sea-orm = { version = "=1.1.20", default-features = false, features = ["sqlx-postgres", "runtime-tokio", "with-chrono", "with-uuid"] }
sha2 = "=0.10.9"
subtle = "=2.6.1"
uuid = { version = "=1.29.0", features = ["v4", "v7"] }
axum = { version = "=0.8.9", features = ["multipart"] }
bytes = "1"
chrono = "=0.4.45"
governor = "0.10"
http = "1"
opentelemetry = "0.27"
opentelemetry-otlp = { version = "0.27", default-features = false, features = ["metrics", "http-proto", "reqwest-client"] }
opentelemetry_sdk = { version = "0.27", features = ["metrics", "rt-tokio"] }
reqwest = { version = "0.12", default-features = false }
serde = { version = "=1.0.229", features = ["derive"] }
serde_json = "=1.0.154"
thiserror = "=2.0.21"
tokio = { version = "=1.54.1", features = ["macros", "net", "rt", "signal", "time"] }
tower-http = { version = "0.6", features = ["cors", "request-id", "trace"] }
tower_governor = "0.8"
tracing = "0.1"
