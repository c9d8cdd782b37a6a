[package]
name = "megos"
version = "0.1.0"
edition = "2021"
publish = false

[dependencies]
libm = "0.2"
num-traits = { version = "0.2", default-features = false }
