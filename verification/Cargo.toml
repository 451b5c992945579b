[package]
name = "trix_player"
version = "0.1.0"
edition = "2021"
publish = false

[dependencies]
fastrand = "2"
anyhow = "1"
clap = { version = "4", features = ["derive"] }
crossterm = "0.28"
ratatui = "0.28"
rodio = "0.19"
symphonia = "0.5"
signal-hook = "0.3"
walkdir = "2"
unicode-width = "0.1"
toml = "0.8"
serde = { version = "1", features = ["derive"] }
alsa = "0.9"
nix = { version = "0.29", features = ["poll"] }
portable-pty = "0.8"
