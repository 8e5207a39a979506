[package]
name = "rust_sfp"
version = "0.1.0"
edition = "2021"
publish = false

[dependencies]
unisocket = "*"
