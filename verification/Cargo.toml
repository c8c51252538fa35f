[package]
name = "mkproject"
version = "0.1.0"
edition = "2021"
publish = false

[dependencies]
env_logger = "*"
log = "0.4"
structopt = "0.3"
