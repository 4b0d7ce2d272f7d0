[package]
name = "core_engine"
version = "0.1.0"
edition = "2021"
publish = false

[dependencies]
libm = "*"
minicbor = { version = "*", features = ["derive", "alloc", "std"] }
