[package]
name = "passgen"
version = "0.1.0"
edition = "2021"
publish = false

[dependencies]
rand = "0.8"
arboard = { version = "3", default-features = false }
crossterm = "0.27"
ratatui = "0.26"
