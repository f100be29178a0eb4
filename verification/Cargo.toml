[package]
name = "node_tortank"
version = "0.1.0"
edition = "2021"
publish = false

[dependencies]
neon = "=1.1.2"
tortank = "=0.29.0"
