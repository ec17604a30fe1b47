[package]
name = "hecs_arkanoid"
version = "0.1.0"
edition = "2021"
publish = false

[dependencies]
glam = "0.25"
hecs = "0.10"
lazy_static = "1.4"
nalgebra = "0.32"
rand = "0.8"
rapier2d = "0.18"
raylib = "3.7"
strum = "0.25"
strum_macros = "0.25"
