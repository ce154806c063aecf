[package]
name = "launchpad"
version = "0.1.0"
edition = "2021"
publish = false

[dependencies]
regex = "1"
midir = "0.7"
enigo = "0.0.14"
lazy_static = "1.4"
