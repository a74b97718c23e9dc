[package]
name = "ccusage_rho"
version = "0.1.0"
edition = "2021"
publish = false

[dependencies]
jiff = "0.2"
sqlite = "*"
