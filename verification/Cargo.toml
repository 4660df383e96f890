[package]
name = "cicada_tools"
version = "0.1.0"
edition = "2021"
publish = false

[dependencies]
regex = "1"
libc = "0.2"
time = "0.1"
