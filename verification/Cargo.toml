[package]
name = "tabbed_ui"
version = "0.1.0"
edition = "2021"
publish = false

[dependencies]
crossbeam = "*"
cursive = "*"
cursive_core = "*"
log = "*"
