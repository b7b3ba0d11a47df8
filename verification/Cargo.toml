[package]
name = "font_layout"
version = "0.1.0"
edition = "2021"
publish = false

[dependencies]
swf = "0.3.0"
