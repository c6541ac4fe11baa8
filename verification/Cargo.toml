[package]
name = "hello_triangle"
version = "0.1.0"
edition = "2021"

[dependencies]
ash = "0.33"
ash-window = "0.7"
winit = "0.25"
