[package]
name = "magic"
version = "0.12.2"
edition = "2021"
publish = false

[dependencies]
errno = "0.2"
libc = "0.2"
magic-sys = "*"

[dev-dependencies]
regex = "1"
