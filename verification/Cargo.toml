[package]
name = "rust_primer"
version = "0.1.0"
edition = "2021"
publish = false

[dependencies]
ahash = "*"
