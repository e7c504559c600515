[package]
name = "shindensen"
version = "0.1.0"
edition = "2021"
publish = false

[dependencies]
makepad-widgets = "*"
makepad-draw = "*"
makepad-micro-serde = "*"
