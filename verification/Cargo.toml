[package]
name = "bytez"
version = "0.1.0"
edition = "2021"
publish = false

[dependencies]
goblin = "*"
