[package]
name = "padded_column"
version = "0.1.0"
edition = "2021"
publish = false

[dependencies]
fmt-iter = "*"
derive_builder = "*"
