[package]
name = "redis_sweep"
version = "0.1.0"
edition = "2021"
publish = false

[dependencies]
redis = "*"
url = "*"
log = "*"
log4rs = "*"
simple_logger = "*"
structopt = "*"
