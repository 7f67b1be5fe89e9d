[package]
name = "athena_editor"
version = "0.1.0"
edition = "2021"
publish = false

[dependencies]
gfx = "=0.7.2"
gfx_device_gl = "=0.5.0"
gfx_window_glutin = "0.5"
glutin = "0.3"
rustc-serialize = "=0.3.25"
