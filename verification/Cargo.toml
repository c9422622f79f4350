[package]
name = "sillytracker"
version = "0.1.0"
edition = "2021"
publish = false

[dependencies]
global-hotkey = "*"
lofty = "*"
mod_player = "*"
ratatui = "*"
rodio = "*"
