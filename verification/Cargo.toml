[package]
name = "crossterm_ffi"
version = "0.1.0"
edition = "2021"
publish = false

[dependencies]
crossterm = "*"
libc = "*"
