[package]
name = "hippmem_py"
version = "0.1.0"
edition = "2021"
publish = false

[dependencies]
hippmem-core = "*"
hippmem-engine = "*"
hippmem-model = "*"
pyo3 = "*"
