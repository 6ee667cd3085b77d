[package]
name = "lars"
version = "0.1.0"
edition = "2021"
publish = false

[dependencies]
derive_more = { version = "*", features = ["add", "constructor", "mul", "not"] }
