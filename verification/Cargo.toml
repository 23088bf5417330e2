[package]
name = "refresh-cli"
version = "0.1.0"
edition = "2021"
publish = false

[dependencies]
anyhow = "1"
signal-hook = "0.3"
thiserror = "1"
tracing = "0.1"
tracing-appender = "0.2"
tracing-subscriber = { version = "0.3", features = ["env-filter"] }

[dev-dependencies]
tempfile = "3"
