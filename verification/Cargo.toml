[package]
name = "c_ares"
version = "0.1.0"
edition = "2021"
publish = false

[dependencies]
c-ares-sys = "*"
libc = "*"
