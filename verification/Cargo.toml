[package]
name = "lampod"
version = "0.1.0"
edition = "2021"
publish = false

[dependencies]
bitcoin = "0.29.2"
lightning = "0.0.116"
lightning-persister = "0.0.116"
log = "0.4"
