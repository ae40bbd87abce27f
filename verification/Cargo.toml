[package]
name = "retro_rs"
version = "0.1.0"
edition = "2021"
publish = false

[dependencies]
libloading = "=0.9.0"
libc = "=0.2.190"
gl = "=0.14.0"
surfman = "=0.14.0"
euclid = "=0.22.14"
image = "=0.25.10"
