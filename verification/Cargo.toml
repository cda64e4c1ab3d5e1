[package]
name = "rusty_bank"
version = "0.1.0"
edition = "2021"
publish = false

[dependencies]
anyhow = "1"
csv = "1"
env_logger = "*"
log = "0.4"
rust_decimal = "1"
serde = { version = "1", features = ["derive"] }
