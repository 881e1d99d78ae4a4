[package]
name = "starfetch"
version = "0.1.0"
edition = "2021"
publish = false

[dependencies]
ansi_term = "0.12"
anyhow = "1"
clap = { version = "3", features = ["derive"] }
dirs = "4"
rand = "0.8"
serde = { version = "1", features = ["derive"] }
serde_json = "1"
