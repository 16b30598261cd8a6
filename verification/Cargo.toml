[package]
name = "tet_rs"
version = "0.1.0"
edition = "2021"
publish = false

[dependencies]
rand = "0.5"
piston = "*"
piston2d-graphics = "*"
piston_window = "*"
