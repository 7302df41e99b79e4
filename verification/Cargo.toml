[package]
name = "lasercut_box"
version = "0.1.0"
edition = "2021"
publish = false

[dependencies]
anyhow = "1"
clap = { version = "4", features = ["cargo"] }
env_logger = "0.11"
log = "0.4"
rust_decimal = "1"
svg = "*"
