[package]
name = "heretic_debug"
version = "0.1.0"
edition = "2021"
publish = false

[dependencies]
nu-protocol = "=0.114.1"
