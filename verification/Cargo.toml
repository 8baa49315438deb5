[package]
name = "froggy"
version = "0.4.4"
edition = "2021"
publish = false

[dependencies]
spin = "*"
