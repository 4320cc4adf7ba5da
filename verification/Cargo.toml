[package]
name = "tui_core"
version = "0.1.0"
edition = "2021"
publish = false

[dependencies]
tokio = { version = "1", features = ["sync", "macros", "rt-multi-thread", "time"] }
crossterm = { version = "*", features = ["event-stream"] }
ratatui = "*"
futures = "0.3"
clap = { version = "4", features = ["derive"] }
thiserror = "*"
