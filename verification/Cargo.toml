[package]
name = "psa_mac"
version = "0.1.0"
edition = "2021"
publish = false

[dependencies]
psa-crypto-sys = "*"
