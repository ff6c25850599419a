[package]
name = "mtp2"
version = "1.0.0"
edition = "2021"
publish = false

[dependencies]
pyo3 = { version = "*", features = ["abi3", "extension-module"] }
thiserror = "2"

[dev-dependencies]
hex = "0.4"
