[package]
name = "csv_viewer"
version = "0.1.0"
edition = "2021"
publish = false

[dependencies]
csv = "1"
serde = { version = "1", features = ["derive"] }
serde-wasm-bindgen = "*"
wasm-bindgen = "0.2"
wasm-bindgen-futures = "0.4"
yew = { version = "*", features = ["csr"] }
