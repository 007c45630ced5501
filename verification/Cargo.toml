[package]
name = "omikuji_python"
version = "0.1.0"
edition = "2021"
publish = false

[dependencies]
omikuji = "*"
pyo3 = "*"
simple_logger = "*"
