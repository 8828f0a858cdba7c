[package]
name = "shaku"
version = "0.1.0"
edition = "2021"
publish = false

[dependencies]
anymap = "0.12"
log = "0.4"
