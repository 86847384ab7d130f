[package]
name = "runtimes"
version = "0.1.0"
edition = "2021"
publish = false

[dependencies]
jupyter-protocol = "=2.0.2"
serde_json = "=1.0.151"
