[package]
name = "lazy_init"
version = "0.1.0"
edition = "2021"

[dependencies]
paste = "1"
