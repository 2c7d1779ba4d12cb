[package]
name = "stl_view"
version = "0.1.0"
edition = "2021"
publish = false

[dependencies]
notify = "*"
anyhow = "*"
stl_io = "*"

[dev-dependencies]
tempfile = "*"
