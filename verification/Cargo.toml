[package]
name = "mandelbrot_viewer"
version = "0.1.0"
edition = "2021"
publish = false

[dependencies]
rayon = "1"
num-complex = "0.4"
nannou = "0.19"
