[package]
name = "bidon"
version = "0.1.0"
edition = "2021"
publish = false

[dependencies]
axum = "0.6"
murray = "*"
tokio = { version = "1", features = ["full"] }
tower-http = { version = "0.4", features = ["trace"] }
tracing = "0.1"
tracing-subscriber = { version = "0.3", features = ["env-filter"] }
