[package]
name = "gst"
version = "0.1.0"
edition = "2021"
publish = false

[dependencies]
glib-sys = "*"
gobject-sys = "*"
gstreamer-sys = "*"
gstreamer-app-sys = "*"
