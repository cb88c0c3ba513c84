[package]
name = "frame_presenter"
version = "0.1.0"
edition = "2021"
publish = false

[dependencies]
ash = "0.30"
byteorder = "1"
cgmath = "0.17"
field-offset = "0.3"
image = { version = "0.23", default-features = false, features = ["png"] }
tobj = "2.0"
winapi = { version = "0.3", features = ["libloaderapi"] }
winit = "0.22"
