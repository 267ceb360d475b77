[package]
name = "alfred_pinboard_rs"
version = "0.1.0"
edition = "2021"
publish = false

[dependencies]
alfred = "*"
alfred-rs = "*"
structopt = "*"
serde = "*"
serde_derive = "*"
serde_json = "*"
dirs = "*"
env_logger = "*"
log = "*"
