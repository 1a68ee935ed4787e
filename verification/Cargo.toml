[package]
name = "ocoin"
version = "0.1.0"
edition = "2021"
publish = false

[dependencies]
sha2 = "0.10"
k256 = "0.10"
rand_core = { version = "0.6", features = ["getrandom"] }
serde = { version = "1", features = ["derive"] }
serde_json = "1"
clap = { version = "3.2", features = ["derive"] }
async-std = { version = "1", features = ["attributes"] }
futures = "0.3"
rand = "0.8"
env_logger = "0.9"
anyhow = "1"

[dev-dependencies]
hex = "0.4"
