[package]
name = "qiniu_bindings"
version = "0.1.0"
edition = "2021"
publish = false

[dependencies]
qiniu-sdk = { version = "=0.2.4", default-features = false, features = ["credential", "http", "http-client"] }
pyo3 = { version = "=0.17.3", features = ["extension-module"] }
pyo3-asyncio = { version = "=0.17.0", features = ["async-std-runtime"] }
pyo3-log = "=0.7.0"
serde_json = "=1.0.154"
log = "0.4"
