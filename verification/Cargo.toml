[package]
name = "ideal_gas"
version = "0.1.0"
edition = "2021"
publish = false

[dependencies]
egui = "=0.22.0"
rapier2d = "=0.22.0"
