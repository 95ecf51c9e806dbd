[package]
name = "deconz-sp"
version = "0.1.0"
edition = "2021"
publish = false

[dependencies]
byteorder = "1"
bytes = "0.4"
serial-line-ip = "*"
futures = "0.1"
tokio = "0.1"
tokio-serial = "3"
mio-serial = "3"
log = "0.4"
env_logger = "*"
failure = "0.1"
