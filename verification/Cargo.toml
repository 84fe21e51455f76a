[package]
name = "mbfilter"
version = "0.1.0"
edition = "2021"
publish = false

[dependencies]
clap = "*"
env_logger = "*"
futures-util = "*"
log = "*"
tokio = { version = "*", features = ["full"] }
warp = "*"
