[package]
name = "flappy_dragon"
version = "0.1.0"
edition = "2021"
publish = false

[dependencies]
bracket-lib = "0.8"
image = "0.24"
