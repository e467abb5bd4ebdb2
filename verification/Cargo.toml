[package]
name = "safe-sid"
version = "1.0.0"
edition = "2021"
publish = false

[dependencies]
windows-link = "*"
