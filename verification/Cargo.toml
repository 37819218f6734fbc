[package]
name = "text_scroller"
version = "0.1.0"
edition = "2021"
publish = false

[dependencies]
microbit = "*"
tiny-led-matrix = "*"
