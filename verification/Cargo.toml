[package]
name = "tracklock"
version = "0.1.0"
edition = "2021"
publish = false

[dependencies]
gstreamer = "0.23"
gstreamer-app = "0.23"
ndarray = "=0.16.1"
opencv = "=0.95.1"
ort = "=2.0.0-rc.10"
ticky = "=1.0.2"
