[package]
name = "rust_qr"
version = "0.1.0"
edition = "2021"
publish = false

[dependencies]
image = { version = "*", default-features = false }
rqrr = "*"
serde = { version = "*", features = ["derive"] }
serde-wasm-bindgen = "*"
wasm-bindgen = "*"

[dev-dependencies]
qrcode = { version = "*", default-features = false }
