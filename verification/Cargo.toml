[package]
name = "glwindow"
version = "0.1.0"
edition = "2021"
publish = false

[dependencies]
winit = "0.30"
glutin = "0.32"
glutin-winit = "0.5"
raw-window-handle = "0.6"
