[package]
name = "delf"
version = "0.1.0"
edition = "2021"
publish = false

[dependencies]
libc = "*"
mmap = "*"
region = "*"
