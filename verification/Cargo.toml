[package]
name = "rust_8080"
version = "0.1.0"
edition = "2021"

[dependencies]
anyhow = "1"
bit_field = "0.10"
