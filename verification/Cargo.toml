[package]
name = "max32660_hal"
version = "0.1.0"
edition = "2021"
publish = false

[dependencies]
libm = "*"
max32660-pac = "*"
