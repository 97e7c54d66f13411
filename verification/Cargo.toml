[package]
name = "pairing_check"
version = "0.1.0"
edition = "2021"
publish = false

[dependencies]
amcl = "*"
rand = "0.8"
