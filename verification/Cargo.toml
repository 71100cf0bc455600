[package]
name = "clevo-controlerd"
version = "0.1.0"
edition = "2021"
publish = false

[dependencies]
bincode = "2"
libc = "0.2"
once_cell = "1"
