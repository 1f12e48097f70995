[package]
name = "ublk"
version = "0.1.0"
edition = "2021"
publish = false

[dependencies]
io-uring = "*"
libc = "*"
clap = { version = "*", features = ["derive"] }
