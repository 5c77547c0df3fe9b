[package]
name = "markdeck"
version = "0.1.0"
edition = "2021"
publish = false

[dependencies]
anyhow = "1"
dirs = "*"
markdown = "*"
ratatui = "*"
serde = { version = "1", features = ["derive"] }
toml = "*"
tui-scrollview = "*"
