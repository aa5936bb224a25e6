[package]
name = "mutti"
version = "0.1.0"
edition = "2021"
publish = false

[dependencies]
clap = { version = "*", features = ["cargo"] }
crossterm = "*"
lofty = "*"
ratatui = "*"
rodio = "*"
rusqlite = { version = "*", features = ["bundled"] }
rustfft = "*"
walkdir = "*"
