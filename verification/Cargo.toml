[package]
name = "attest_gate"
version = "0.1.0"
edition = "2021"
publish = false

[dependencies]
anyhow = "=1.0.104"
wasmtime = { version = "=48.0.5", default-features = false, features = ["runtime", "std"] }
