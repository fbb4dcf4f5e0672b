[package]
name = "taws_dataplane"
version = "0.1.0"
edition = "2021"
publish = false

[dependencies]
rtlola-interpreter = "=0.11.0"
