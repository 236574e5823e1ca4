[package]
name = "interceptor"
version = "0.1.0"
edition = "2021"
publish = false

[dependencies]
axum = "0.5"
clap = { version = "3", features = ["derive"] }
tokio = { version = "1", features = ["macros", "rt-multi-thread"] }
tracing = "0.1"
tracing-subscriber = { version = "0.3", features = ["env-filter"] }
