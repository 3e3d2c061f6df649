[package]
name = "announcer"
version = "0.1.0"
edition = "2021"
publish = false

[dependencies]
sysinfo = "*"
fs2 = "*"
tokio = { version = "*", features = ["full"] }
tokio-stream = "*"
tracing = "*"
tracing-subscriber = { version = "*", features = ["env-filter"] }
tracing-appender = "*"
rolling-file = "*"
toml_edit = "*"
url = "*"
