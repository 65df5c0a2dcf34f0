[package]
name = "fontgen"
version = "0.1.0"
edition = "2021"
publish = false

[dependencies]
freetype-rs = "0.38.0"
structopt = "0.3.26"
image = "0.25.10"
