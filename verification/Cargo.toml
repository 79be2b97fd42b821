[package]
name = "rwm"
version = "0.1.0"
edition = "2021"
publish = false

[dependencies]
x11 = { version = "2", features = ["xlib"] }
libc = "0.2"
log = "0.4"
env_logger = "*"
