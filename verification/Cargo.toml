[package]
name = "file_region"
version = "0.1.0"
edition = "2021"
publish = false

[dev-dependencies]
tempfile = "3"
