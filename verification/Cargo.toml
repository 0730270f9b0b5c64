[package]
name = "rawfileparser"
version = "0.1.0"
edition = "2021"
publish = false

[dependencies]
anyhow = "1"
lazy_static = "1"
path-absolutize = "*"
