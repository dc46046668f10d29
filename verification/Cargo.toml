[package]
name = "vspreview_rs"
version = "0.1.0"
edition = "2021"
publish = false

[dependencies]
eframe = { version = "=0.17.0", features = ["persistence"] }
poll-promise = "=0.1.0"
fast_image_resize = "=6.1.0"
serde = { version = "=1.0.229", features = ["derive"] }
