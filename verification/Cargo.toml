[package]
name = "zero_fill"
version = "0.1.0"
edition = "2021"

[dependencies]
hound = "*"
