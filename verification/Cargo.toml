[package]
name = "graphene_scene"
version = "0.1.0"
edition = "2021"
publish = false

[dependencies]
base64 = "=0.21.7"
bezier-rs = "=0.5.0"
glam = "=0.29.3"
image = { version = "=0.24.9", default-features = false, features = ["png"] }
usvg = "0.38"
