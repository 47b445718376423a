[package]
name = "lx32_validator"
version = "0.1.0"
edition = "2021"

[dependencies]
rand = "*"
