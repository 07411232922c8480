[package]
name = "lcv"
version = "0.1.0"
edition = "2021"
publish = false

[dependencies]
anyhow = "*"
better-panic = "*"
crossterm = { version = "*", features = ["event-stream"] }
directories = "*"
futures = "*"
ratatui = "*"
signal-hook = "*"
strum = "*"
strum_macros = "*"
tokio = { version = "*", features = ["full"] }
tokio-util = "*"
tracing = "*"
tracing-error = "*"
tracing-subscriber = { version = "*", features = ["env-filter"] }
tui-input = "*"
