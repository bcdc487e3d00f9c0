[package]
name = "tile_picker"
version = "0.1.0"
edition = "2021"
publish = false

[dependencies]
heapless = "0.8"
rand = "0.8"
