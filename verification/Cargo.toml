[package]
name = "osm_microbenchmarks"
version = "0.1.0"
edition = "2021"
publish = false

[dependencies]
rand = "0.8"
dirs = "*"
structopt = "0.3"
pretty_env_logger = "*"
time = "*"
