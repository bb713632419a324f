[package]
name = "qubit-cas"
version = "0.1.0"
edition = "2021"
publish = false

[dependencies]
qubit-atomic = "=0.17.6"
qubit-error = "=0.2.7"
qubit-fast-cas = "=0.3.2"
qubit-function = "=0.18.3"
qubit-retry = { version = "=0.26.1", features = ["tokio"] }
