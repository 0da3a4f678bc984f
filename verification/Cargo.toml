[package]
name = "plants_vs_zombies"
version = "0.1.0"
edition = "2021"
publish = false

[dependencies]
rand = "0.8"
image = "0.23"
ggez = "0.7"
glam = { version = "0.20", features = ["mint"] }
rodio = "0.14"
lazy_static = "1"
async-std = "1"
