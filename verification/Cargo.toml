[package]
name = "nuclear"
version = "0.1.0"
edition = "2021"
publish = false

[dependencies]
rand = { version = "0.8", features = ["small_rng"] }
serde = { version = "1", features = ["derive"] }
toml = "0.8"
csv = "1"
chrono = "0.4"
log = "0.4"
env_logger = "0.11"
indicatif = "0.17"
