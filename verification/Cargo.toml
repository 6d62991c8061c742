[package]
name = "mind_type_core"
version = "0.4.0"
edition = "2021"
publish = false

[dependencies]
async-trait = "0.1"
chrono = { version = "0.4", default-features = false, features = ["std", "now"] }
js-sys = "0.3"
lazy_static = "1"
log = "0.4"
serde = { version = "1", features = ["derive"] }
serde-wasm-bindgen = "0.6"
unicode-segmentation = "1"
wasm-bindgen = "0.2"
