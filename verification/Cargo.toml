[package]
name = "rustemon"
version = "0.1.0"
edition = "2021"
publish = false

[dependencies]
rand = "0.8"
crossterm = "0.27"
ratatui = "0.26"
image = { version = "0.24", default-features = false }
sdl2 = "0.36"
