[package]
name = "rvim"
version = "0.1.0"
edition = "2021"
publish = false

[dependencies]
crossterm = "*"
once_cell = "*"
termios = "*"
