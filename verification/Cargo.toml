[package]
name = "polaris"
version = "0.1.0"
edition = "2021"
publish = false

[dependencies]
macroquad = "*"
miniquad = "*"
egui = "*"
egui-macroquad = "*"
physical_constants = "*"
