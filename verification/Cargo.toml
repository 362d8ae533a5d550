[package]
name = "calendar_hub"
version = "0.1.0"
edition = "2021"
publish = false

[dependencies]
tokio = { version = "*", features = ["sync", "rt-multi-thread", "macros", "net", "time"] }
uuid = { version = "*", features = ["v4"] }
axum = { version = "*", features = ["ws"] }
futures-util = "*"
serde = { version = "*", features = ["derive"] }
serde_json = "*"
rusqlite = { version = "*", features = ["bundled"] }
jsonwebtoken = "*"
chrono = "*"
humantime = "*"
humantime-serde = "*"
tracing = "*"
tracing-subscriber = { version = "*", features = ["env-filter"] }
