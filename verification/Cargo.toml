[package]
name = "zaino-oram"
version = "0.1.0"
edition = "2021"
publish = false

[dependencies]
blake2 = "0.10"
rand = "0.9"
zeroize = "1"
tempfile = "3"
