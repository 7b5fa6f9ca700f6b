[package]
name = "core-daemon"
version = "0.1.0"
edition = "2021"
publish = false

[dependencies]
chrono = "0.4"
uuid = { version = "1", features = ["v4"] }
serde = { version = "1", features = ["derive"] }
serde_json = "1"
axum = { version = "*", features = ["ws"] }
tokio = { version = "1", features = ["full"] }
tower-http = { version = "*", features = ["cors", "trace"] }
tracing = "0.1"
tracing-subscriber = { version = "0.3", features = ["env-filter"] }
rusqlite = { version = "*", features = ["bundled"] }
tantivy = "*"
pdf-extract = "*"
