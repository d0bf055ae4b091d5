[package]
name = "raphael_bencher"
version = "0.1.0"
edition = "2021"
publish = false

[dependencies]
axum = "*"
axum-github-webhook-extract = "*"
serde = { version = "1", features = ["derive"] }
tokio = { version = "1", features = ["macros", "rt-multi-thread", "net"] }
