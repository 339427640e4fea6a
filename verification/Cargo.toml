[package]
name = "bsplitter_wasm"
version = "0.1.0"
edition = "2021"
publish = false

[dependencies]
dcv-color-primitives = "=0.5.4"
imageproc = "=0.22.0"
pico-detect = "=0.4.1"
rand = "=0.8.8"
rand_xorshift = "=0.3.0"
wasm-bindgen = "=0.2.129"
web-sys = { version = "=0.3.106", features = ["console", "CanvasRenderingContext2d", "ImageData"] }
