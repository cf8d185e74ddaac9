[package]
name = "rng_tools"
version = "0.1.0"
edition = "2021"
publish = false

[dependencies]
num_enum = "*"
serde = { version = "1", features = ["derive"] }
tsify-next = "*"
wasm-bindgen = "*"
