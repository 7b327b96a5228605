[package]
name = "federated_stream"
version = "0.1.0"
edition = "2021"
publish = false

[dependencies]
anyhow = "1"
arrow = { version = "*", default-features = false, features = ["ffi", "pyarrow"] }
async-trait = "0.1"
futures = "0.3"
polars = { version = "*", default-features = false, features = ["lazy", "csv"] }
polars-arrow = { version = "*", default-features = false }
pyo3 = { version = "*" }
pyo3-async-runtimes = { version = "*", features = ["tokio-runtime"] }
tokio = { version = "1", features = ["rt-multi-thread", "sync", "macros"] }
