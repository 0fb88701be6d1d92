[package]
name = "retro_graphics"
version = "0.1.0"
edition = "2021"
publish = false

[dependencies]
egui = "0.27"
egui_glow = "0.27"
glow = "0.13"
image = { version = "0.24", default-features = false, features = ["png"] }
wasm-bindgen-futures = "0.4"

[dev-dependencies]
mycelium-bitfield = "0.1"
