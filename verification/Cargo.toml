[package]
name = "packet_dump"
version = "0.1.0"
edition = "2021"
publish = false

[dependencies]
pnet = "*"
log = "0.4"
env_logger = "*"
