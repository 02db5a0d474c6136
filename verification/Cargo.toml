[package]
name = "miniserver"
version = "0.1.0"
edition = "2021"
publish = false

[dependencies]
ansi_term = "0.12"
hyper = "0.10"
libc = "0.2"
