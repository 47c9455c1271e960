[package]
name = "gdcef"
version = "0.1.0"
edition = "2021"
publish = false

[dependencies]
adblock = "=0.12.6"
cef = { version = "=144.4.0", default-features = false, features = ["dox"] }
godot = "=0.4.5"
wide = "=1.1.1"
