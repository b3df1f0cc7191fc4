[package]
name = "kdash"
version = "0.1.0"
edition = "2021"
publish = false

[dependencies]
anyhow = "1"
backtrace = "0.3"
crossterm = "=0.25.0"
tui = "=0.19.0"
