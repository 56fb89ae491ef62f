[package]
name = "cam_vis"
version = "0.1.0"
edition = "2021"
publish = false

[dependencies]
structopt = "0.2"
vulkano = "0.11"
vulkano-win = "0.11"
winit = "0.18"
