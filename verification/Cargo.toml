[package]
name = "page_store"
version = "0.1.0"
edition = "2021"
publish = false

[dependencies]
axum = "0.7"
http = "1"
redis = { version = "0.25", features = ["tokio-comp"] }
serde = { version = "1", features = ["derive"] }
tokio = { version = "1", features = ["rt-multi-thread", "macros", "net"] }
tracing = "0.1"
tracing-subscriber = { version = "0.3", features = ["env-filter", "fmt"] }
