[package]
name = "ketch"
version = "0.1.0"
edition = "2021"
publish = false

[dependencies]
fps_counter = "1.0"
log = "0.4"
structopt = "0.2"
vulkano = "0.11"
vulkano-win = "0.11"
winit = "0.18"
