[package]
name = "gitlab-merge-pipeline"
version = "0.1.0"
edition = "2021"
publish = false

[dependencies]
chrono = "0.4"
color-eyre = "*"
gitlab = "*"
rolling-file = "*"
serde = { version = "1", features = ["derive"] }
termion = "*"
tokio = { version = "1", features = ["rt", "macros", "time", "fs", "sync"] }
tokio-stream = "*"
toml = "*"
tracing = "*"
tracing-appender = "*"
tracing-subscriber = "*"
url = { version = "2", features = ["serde"] }
yansi = "1"
