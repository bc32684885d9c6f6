[package]
name = "presenter"
version = "0.1.0"
edition = "2021"
publish = false

[dependencies]
bottle = "=0.1.0"
egl = "=0.2.7"
log = "=0.4.34"
stderrlog = "=0.6.0"
winit = "=0.28.7"
