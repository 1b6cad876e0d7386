[package]
name = "ferrokrait"
version = "0.1.0"
edition = "2021"
publish = false

[dependencies]
pyo3 = { version = "0.19", features = ["extension-module", "abi3-py37"] }
spin_sleep = "1"
device_query = "*"
