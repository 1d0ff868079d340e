[package]
name = "noise_engine_native"
version = "0.1.0"
edition = "2021"
publish = false

[dependencies]
ash = { version = "0.37", default-features = false }
once_cell = "1"
