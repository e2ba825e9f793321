[package]
name = "line_context"
version = "0.1.0"
edition = "2021"
publish = false

[dependencies]
regex = "1"
num = "0.4"
