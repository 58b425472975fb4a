[package]
name = "chatty"
version = "0.1.0"
edition = "2021"
publish = false

[dependencies]
anyhow = "1"
chrono = "0.4"
crossterm = { version = "0.28", features = ["event-stream"] }
itertools = "0.13"
ratatui = "0.28"
shlex = "1"
tokio = { version = "1", features = ["macros", "rt-multi-thread", "sync", "time"] }
tokio-stream = "0.1"
tracing = "0.1"

[dev-dependencies]
clap = { version = "4", default-features = false, features = ["std"] }
