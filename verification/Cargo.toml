[package]
name = "sds011-nostd-rs"
version = "0.1.0"
edition = "2021"
publish = false

[dependencies]
embedded-io-async = "0.6"
log = "0.4"
