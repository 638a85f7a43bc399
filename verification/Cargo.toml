[package]
name = "codex_tui"
version = "0.1.0"
edition = "2021"
publish = false

[dependencies]
toml = "*"
regex-lite = "*"
rand = "*"
serde = { version = "*", features = ["derive"] }
chrono = "*"
reqwest = { version = "*", default-features = false, features = ["blocking"] }
tokio = { version = "*", features = ["rt", "rt-multi-thread", "sync", "macros", "time"] }
crossterm = "*"
ratatui = "*"
clap = { version = "*", features = ["derive"] }
anyhow = "*"
