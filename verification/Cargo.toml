[package]
name = "wsgidragoncall"
version = "0.1.0"
edition = "2021"
publish = false

[dependencies]
mio = { version = "*", features = ["os-poll", "net"] }
mio_httpc = "*"
pyo3 = "0.15"
serde = { version = "1", features = ["derive"] }
serde_json = "1"
