[package]
name = "quick_menu"
version = "0.1.0"
edition = "2021"
publish = false

[dependencies]
fuzzy-matcher = "*"
textwrap = "*"
anyhow = "*"
clap = { version = "*", features = ["derive"] }
confy = "*"
crossterm = "*"
ratatui = "*"
serde = { version = "*", features = ["derive"] }
