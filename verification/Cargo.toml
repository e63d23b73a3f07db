[package]
name = "lumos"
version = "0.1.0"
edition = "2021"
publish = false

[dependencies]
anyhow = "1"
libc = "0.2"
termios = "0.3"

[dev-dependencies]
regex = "1"
