[package]
name = "pmc"
version = "0.2.0"
edition = "2021"
publish = false

[dependencies]
lazy_static = "1"
libc = "0.2"
pmc-sys = "*"
