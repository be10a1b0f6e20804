[package]
name = "render_loop"
version = "0.1.0"
edition = "2021"
publish = false

[dependencies]
cgmath = "0.15"
find_folder = "0.3"
gfx = "0.18"
gfx_device_gl = "0.16"
gfx_window_glutin = "0.31"
glutin = "0.21"
image = "0.18"
structopt = "0.1"
structopt-derive = "0.1"
