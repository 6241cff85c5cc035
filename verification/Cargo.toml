[package]
name = "hertzian"
version = "0.1.0"
edition = "2021"
publish = false

[dependencies]
ndarray = "=0.17.2"
num-complex = "=0.4.6"
rustfft = "=6.4.1"
realfft = "=3.5.1"
pyo3 = { version = "=0.30.1", features = ["extension-module", "abi3-py311"] }
numpy = "=0.30.0"
