[package]
name = "scram"
version = "0.1.0"
edition = "2021"
publish = false

[dependencies]
ring = "*"
data-encoding = "*"
rand = "0.8"
