[package]
name = "quanta"
version = "0.1.0"
edition = "2021"
publish = false

[dependencies]
atomic-shim = "*"
metrics-core = "*"
prost-types = "*"
