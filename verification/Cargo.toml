[package]
name = "savant"
version = "0.1.0"
edition = "2021"
publish = false

[dependencies]
hex = "=0.4.3"
anyhow = "=1.0.104"
clap = { version = "=4.6.7", features = ["derive"] }
dirs = "=7.0.0"
rusb = "=0.9.4"
