[package]
name = "docker_dashboard"
version = "0.1.0"
edition = "2021"
publish = false

[dependencies]
axum = "=0.8.9"
reqwest = { version = "=0.13.5", default-features = false }
serde_json = "=1.0.154"
tera = "=1.20.1"
tokio = { version = "=1.54.1", features = ["macros", "rt-multi-thread", "net"] }
