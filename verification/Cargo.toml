[package]
name = "lunar_microgrid"
version = "0.1.0"
edition = "2021"
publish = false

[dependencies]
uom = "*"
ratatui = "*"
crossterm = "*"
