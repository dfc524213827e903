[package]
name = "wasm_engine"
version = "0.1.0"
edition = "2021"
publish = false

[dependencies]
wasmparser = "=0.261.0"
libc = "=0.2.190"
nix = { version = "=0.31.3", features = ["signal"] }
serde = "=1.0.229"
serde_derive = "=1.0.229"
