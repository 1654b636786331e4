[package]
name = "thumbpick"
version = "0.1.0"
edition = "2021"
publish = false

[dependencies]
gtk4 = "0.9"
gdk-pixbuf = "0.20"
async-channel = "2"
rayon = "1"
walkdir = "2"
