[package]
name = "conrod_example_shared"
version = "0.1.0"
edition = "2021"
publish = false

[dependencies]
conrod_core = "=0.62.0"
pistoncore-input = "=0.23.0"
rand = "*"
