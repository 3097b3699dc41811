[package]
name = "cramjam"
version = "0.1.0"
edition = "2021"
publish = false

[dependencies]
brotli2 = "*"
flate2 = "*"
lz4 = "*"
snap = "*"
zstd = "*"
