[package]
name = "easyray"
version = "0.1.0"
edition = "2021"
publish = false

[dependencies]
ratatui = "*"
raylib = "*"
