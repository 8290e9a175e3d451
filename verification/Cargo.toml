[package]
name = "wasm_gpu"
version = "0.1.0"
edition = "2021"
publish = false

[dependencies]
wasmparser = "*"
thiserror = "*"
wast = "*"
