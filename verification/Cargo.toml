[package]
name = "openslide"
version = "0.1.0"
edition = "2021"
publish = false

[dependencies]
byteorder = "1"
libc = "0.2"
clap = "2"
image = { version = "*", default-features = false }
