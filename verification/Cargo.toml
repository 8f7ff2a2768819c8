[package]
name = "linked-submit"
version = "0.1.0"
edition = "2021"
publish = false

[dependencies]
compio-buf = "*"
compio-driver = "*"
pin-project-lite = "*"
