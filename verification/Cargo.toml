[package]
name = "r64drive"
version = "0.1.0"
edition = "2021"
publish = false

[dependencies]
byteorder = "1"
safe-ftdi = "*"
