[package]
name = "gpu_quad"
version = "0.1.0"
edition = "2021"
publish = false

[dependencies]
image = "*"
wgpu = "*"
wasm-bindgen = "*"
web-sys = { version = "*", features = ["HtmlCanvasElement"] }
serde = { version = "*", features = ["derive"] }
serde-wasm-bindgen = "*"
bytemuck = { version = "*", features = ["derive"] }
log = "*"
console_log = "*"
