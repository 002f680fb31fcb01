[package]
name = "wincam"
version = "0.1.0"
edition = "2021"
publish = false

[dependencies]
anyhow = "1"
image = "0.25"
opencv = "*"
