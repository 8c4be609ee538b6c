[package]
name = "winkeyer"
version = "0.1.0"
edition = "2021"
publish = false

[dependencies]
env_logger = "0.10"
log = "0.4"
serialport = { version = "4", default-features = false }
