[package]
name = "snippet_expander"
version = "0.1.0"
edition = "2021"
publish = false

[dependencies]
arboard = "*"
enigo = "*"
rdev = "*"
tracing = "*"
