[package]
name = "miohttp"
version = "0.1.0"
edition = "2021"
publish = false

[dependencies]
httparse = "1"
libc = "0.2"
mio = "0.5"
net2 = "0.2"
