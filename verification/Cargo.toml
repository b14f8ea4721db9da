[package]
name = "lazrs"
version = "0.1.0"
edition = "2021"
publish = false

[dependencies]
laz = "*"
libc = "*"
