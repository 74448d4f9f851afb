[package]
name = "spspf"
version = "0.1.0"
edition = "2021"

[dependencies]
psp = "*"
