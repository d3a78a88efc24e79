[package]
name = "sdio"
version = "0.1.0"
edition = "2021"
publish = false

[dependencies]
aligned = "*"
block-device-driver = "*"
embedded-hal = "*"
embedded-hal-async = "*"
