[package]
name = "gateway"
version = "0.1.0"
edition = "2021"
publish = false

[dependencies]
anyhow = "*"
axum = "*"
chrono = "*"
redis = { version = "*", features = ["tokio-comp"] }
reqwest = { version = "*", default-features = false, features = ["json"] }
serde = { version = "*", features = ["derive"] }
serde_json = "*"
tokio = { version = "*", features = ["rt-multi-thread", "macros", "sync", "time", "net"] }
tower-http = { version = "*", features = ["cors"] }
tracing = "*"
tracing-subscriber = { version = "*", features = ["env-filter", "fmt"] }
uuid = { version = "*", features = ["v4"] }
