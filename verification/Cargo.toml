[package]
name = "enet_gw_api"
version = "0.1.0"
edition = "2021"
publish = false

[dependencies]
pyo3 = "*"
pyo3-async-runtimes = { version = "*", features = ["tokio-runtime"] }
pyo3-log = "*"
tokio = { version = "*", features = ["sync", "rt"] }
eventuals = "*"
log = "*"
