[package]
name = "resvg_py"
version = "0.1.0"
edition = "2021"
publish = false

[dependencies]
resvg = "=0.35.0"
png = "=0.17.16"
pyo3 = "=0.20.3"
