[package]
name = "procedural"
version = "0.3.0"
edition = "2021"
publish = false

[dependencies]
rand = "0.8"
simdnoise = "3.1"
ggez = "0.5"
