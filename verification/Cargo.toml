[package]
name = "toy_interferometer"
version = "0.1.0"
edition = "2021"
publish = false

[dependencies]
itertools = "*"
wasm-bindgen = "*"
web-sys = "*"
wee_alloc = "*"
nalgebra = "*"
ndarray = "*"
csv = "*"
