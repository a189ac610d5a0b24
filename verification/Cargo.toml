[package]
name = "gimoji"
version = "0.1.0"
edition = "2021"
publish = false

[dependencies]
anyhow = "1"
arboard = { version = "3", default-features = false }
cfg-if = "1"
clap = { version = "4", features = ["derive"] }
crossterm = "0.27"
nix = { version = "0.28", features = ["process"] }
ratatui = "0.26"
regex = "1"
terminal-light = "1"
