[package]
name = "knukki"
version = "0.1.0"
edition = "2021"
publish = false

[dependencies]
sha2 = "0.9"
golem = "0.1"
glow = "0.6"
glutin = "0.26"
ab_glyph = "0.2"
unicode-segmentation = "1"
lazy_static = "1"
log = "0.4"
font-kit = "0.10"
pathfinder_geometry = "0.5"
ttf-parser = "0.6"
wasm-bindgen = "0.2"
web-sys = "0.3"
