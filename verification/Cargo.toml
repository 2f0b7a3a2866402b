[package]
name = "bitrate_calc"
version = "0.1.0"
edition = "2021"
publish = false

[dependencies]
plotters = { version = "0.3", default-features = false, features = ["svg_backend", "line_series", "full_palette"] }
