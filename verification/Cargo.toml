[package]
name = "edhex"
version = "0.1.0"
edition = "2021"
publish = false

[dependencies]
edhex_core = "*"
regex = "1"
clap = "2"
