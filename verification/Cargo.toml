[package]
name = "ex"
version = "0.1.0"
edition = "2021"
publish = false

[dependencies]
quick-error = "1.2"
