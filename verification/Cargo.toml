[package]
name = "kew"
version = "0.1.0"
edition = "2021"
publish = false

[dependencies]
ash = "0.38"
crossbeam = "0.8"
env_logger = "0.11"
log = "0.4"
winit = "0.30"
