[package]
name = "clamav-rs"
version = "0.5.5"
edition = "2021"
publish = false

[dependencies]
clamav-sys = "=0.0.5"
libc = "=0.2.191"
