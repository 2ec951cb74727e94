[package]
name = "native_functions"
version = "0.1.0"
edition = "2021"
publish = false

[dev-dependencies]
sha2 = "=0.10.9"
