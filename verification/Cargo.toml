[package]
name = "musical_keyboard"
version = "0.1.0"
edition = "2021"
publish = false

[dependencies]
pitch_calc = "*"
