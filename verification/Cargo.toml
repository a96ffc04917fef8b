[package]
name = "nimbus"
version = "0.1.0"
edition = "2021"
publish = false

[dependencies]
clap = "2"
darksky = "*"
dotenv = "*"
log = "*"
pretty_env_logger = "*"
serde = "1"
serde_derive = "1"
serde_json = "1"
toml = "*"
xdg = "*"
