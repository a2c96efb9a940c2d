[package]
name = "shared_data"
version = "0.1.0"
edition = "2021"
publish = false

[dependencies]
arrayvec = "*"
shared_memory = "*"
lazy_static = "*"
