[package]
name = "storefront"
version = "0.1.0"
edition = "2021"
publish = false

[dependencies]
anyhow = "1"
serde = { version = "1", features = ["derive"] }
serde_json = "1"
wasm-bindgen = "0.2"
wasm-logger = "0.2"
yew = "0.17"
yew-router = "0.14"
