[package]
name = "glerm"
version = "0.1.0"
edition = "2021"
publish = false

[dependencies]
crossterm = "=0.26.1"
rustler = "=0.29.1"
