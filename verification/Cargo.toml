[package]
name = "lzma_container"
version = "0.1.0"
edition = "2021"
publish = false

[dependencies]
lzma-sys = "=0.1.20"

[dev-dependencies]
xz2 = "=0.1.7"
