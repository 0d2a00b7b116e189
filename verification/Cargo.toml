[package]
name = "staticserve"
version = "0.1.0"
edition = "2021"
publish = false

[dependencies]
pathdiff = "*"
rocket = "0.5"
walkdir = "2"
