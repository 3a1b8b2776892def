[package]
name = "vhadmin"
version = "0.1.0"
edition = "2021"
publish = false

[dependencies]
anyhow = "*"
serde = { version = "*", features = ["derive"] }
serde_json = "*"
web-sys = { version = "*", features = ["console"] }
yew = { version = "*", features = ["csr"] }
gloo-net = "*"
wasm-bindgen-futures = "*"
