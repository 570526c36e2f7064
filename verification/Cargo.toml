[package]
name = "device"
version = "0.1.0"
edition = "2021"
publish = false

[dev-dependencies]
blurmock = "=0.1.3"
