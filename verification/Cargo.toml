[package]
name = "bern_test"
version = "0.1.0"
edition = "2021"
publish = false

[dependencies]
nb = "*"
