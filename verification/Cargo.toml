[package]
name = "three_d"
version = "0.1.0"
edition = "2021"
publish = false

[dependencies]
glow = "0.11"
cgmath = "0.18"
half = "1.8"
rgb = "0.8"
thiserror = "1"
egui = "0.17"
image = { version = "0.24", default-features = false }
tobj = "3"
rand = "0.8"
three-d-asset = { version = "0.3", default-features = false }
glutin = "0.28"
gl = "0.14"
gust = "*"
wasm-bindgen = "0.2"
js-sys = "0.3"
web-sys = "0.3"
