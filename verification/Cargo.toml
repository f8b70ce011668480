[package]
name = "lox_shell"
version = "0.1.0"
edition = "2021"
publish = false

[dependencies]
anyhow = "*"
lox = "*"
