[package]
name = "image_processor"
version = "0.1.0"
edition = "2021"
publish = false

[dependencies]
clap = "2.34"
crossbeam = "*"
image = { version = "*", default-features = false, features = ["png", "jpeg"] }
num-complex = "*"
rayon = "*"
