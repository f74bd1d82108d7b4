[package]
name = "pyorchard"
version = "0.1.0"
edition = "2021"
publish = false

[dependencies]
orchard = "=0.16.0"
pasta_curves = "=0.6.1"
pyo3 = "=0.30.1"
rand_chacha = "=0.10.0"
rand_core = "=0.10.1"
zcash_primitives = "=0.31.0"
zcash_protocol = "=0.11.0"
