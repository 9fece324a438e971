[package]
name = "quadloop"
version = "0.1.0"
edition = "2021"

[dependencies]
gl = "*"
glutin = "0.19"
