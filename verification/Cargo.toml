[package]
name = "sparrow_installer"
version = "0.1.0"
edition = "2021"
publish = false

[dependencies]
anyhow = "*"
clap = { version = "*", features = ["derive"] }
cli-log = "*"
crossterm = "*"
ratatui = "*"
serde = { version = "*", features = ["derive"] }
tokio = { version = "*", features = ["io-util", "macros", "process", "rt-multi-thread"] }
toml = "*"
