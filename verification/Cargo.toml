[package]
name = "j3pic"
version = "0.2.0"
edition = "2021"
publish = false

[dependencies]
image = { version = "0.25", default-features = false }
