[package]
name = "odin_host"
version = "0.1.0"
edition = "2021"
publish = false

[dependencies]
toml = "*"
serde = { version = "*", features = ["derive"] }
log = "*"
env_logger = "*"
ctrlc = "*"
structopt = "*"
