[package]
name = "pymodule"
version = "0.1.0"
edition = "2021"

[dependencies]
crossbeam = "*"
nanoid = "*"
pyo3 = "*"
