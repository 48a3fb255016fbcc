[package]
name = "program_tray"
version = "0.1.0"
edition = "2021"
publish = false

[dependencies]
shlex = "*"
libc = "*"
toml = "*"
serde = { version = "*", features = ["derive"] }
clap = { version = "*", features = ["derive"] }
log = "*"
env_logger = "*"
anyhow = "*"
