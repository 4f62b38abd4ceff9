[package]
name = "zigate"
version = "0.1.0"
edition = "2021"
publish = false

[dependencies]
bytebuffer = "*"
byteorder = "1"
env_logger = "*"
log = "0.4"
rppal = "*"
