[package]
name = "modal_editor"
version = "0.1.0"
edition = "2021"
publish = false

[dependencies]
unicode-width = "0.1"
crossterm = "*"
