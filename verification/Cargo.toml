[package]
name = "pyc_normalize"
version = "0.1.0"
edition = "2021"
publish = false

[dependencies]
anyhow = "*"
indoc = "*"
log = "*"
pyo3 = "*"
