[package]
name = "cairo_builtins"
version = "0.1.0"
edition = "2021"
publish = false

[dependencies]
keccak = "=0.1.6"
