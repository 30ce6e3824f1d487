[package]
name = "sentry_log4rs"
version = "0.1.0"
edition = "2021"
publish = false

[dependencies]
anyhow = "1"
derivative = "2"
log = "0.4"
log4rs = "1"
sentry = { version = "*", default-features = false }
serde = { version = "1", features = ["derive"] }
