[package]
name = "balldemo"
version = "0.1.0"
edition = "2021"
publish = false

[dependencies]
ggez = "0.5"
nphysics2d = "=0.24.0"
