[package]
name = "anyrun"
version = "0.1.0"
edition = "2021"
publish = false

[dependencies]
clap = { version = "*", features = ["derive"] }
env_logger = "*"
log = "*"
nix = { version = "*", features = ["process"] }
ron = "*"
serde = { version = "*", features = ["derive"] }
wl-clipboard-rs = "*"
