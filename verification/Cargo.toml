[package]
name = "cargo_spdx"
version = "0.1.0"
edition = "2021"
publish = false

[dependencies]
anyhow = "*"
cargo_metadata = "*"
chrono = "*"
clap = { version = "*", features = ["derive"] }
env_logger = "*"
log = "*"
serde_json = "*"
serde_yaml = "*"
sha1 = "*"
sha2 = "*"
spdx-rs = "*"

[dev-dependencies]
hex = "*"
