[package]
name = "nero"
version = "0.1.0"
edition = "2021"
publish = false

[dependencies]
url = { version = "=2.5.8", features = ["serde"] }
wasm-metadata = "=0.229.0"
anyhow = "=1.0.104"
serde = { version = "=1.0.229", features = ["derive"] }
tokio = { version = "=1.54.1", features = ["sync"] }
wasmtime = { version = "=33.0.2", default-features = false, features = ["runtime", "cranelift", "component-model", "async", "std"] }
wasmtime-wasi = "=33.0.2"
wasmtime-wasi-http = "=33.0.2"
