[package]
name = "macro_lib"
version = "0.1.0"
edition = "2021"
publish = false

[dependencies]
anyhow = "*"
chrono = "*"
clap = { version = "*", features = ["derive"] }
ctrlc = "*"
dirs = "*"
env_logger = "*"
log = "*"
rdev = "*"
