[package]
name = "sup"
version = "0.1.0"
edition = "2021"
publish = false

[dependencies]
anyhow = "1"
chrono = "0.4"
ctrlc = "3"
env_logger = "*"
flate2 = "1"
log = "0.4"
nix = { version = "*", features = ["signal", "fs"] }
serde = { version = "1", features = ["derive"] }
tempfile = "3"
toml = "*"
