[package]
name = "wasmer_js_tasks"
version = "0.1.0"
edition = "2021"
publish = false

[dependencies]
anyhow = "=1.0.104"
futures = "=0.3.34"
hex = "=0.4.3"
js-sys = "=0.3.107"
once_cell = "=1.21.4"
serde = { version = "=1.0.229", features = ["derive"] }
serde_json = "=1.0.154"
tokio = { version = "=1.54.1", default-features = false, features = ["sync", "io-util"] }
tracing = "=0.1.44"
url = "=2.5.8"
virtual-fs = { version = "=0.601.0", default-features = false }
wasm-bindgen = "=0.2.130"
wasm-bindgen-futures = "=0.4.80"
wasmer-types = { version = "=6.1.0", default-features = false, features = ["std"] }
