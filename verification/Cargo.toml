[package]
name = "dac_frame"
version = "0.1.0"
edition = "2021"
publish = false

[dependencies]
anyhow = "1"
visa-rs = "*"
