[package]
name = "kessler"
version = "0.1.0"
edition = "2021"
publish = false

[dependencies]
ndarray = "*"
ndarray-linalg = "*"
wasm-bindgen = "*"
js-sys = "*"
