[package]
name = "framesync"
version = "0.1.0"
edition = "2021"
publish = false

[dependencies]
erupt = "0.19"
winit = "0.24"
structopt = "0.3"
ultraviolet = "0.8"
