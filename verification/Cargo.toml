[package]
name = "lastodo"
version = "0.1.0"
edition = "2021"
publish = false

[dependencies]
chrono = "0.4"
color-eyre = "0.6"
crossterm = "0.27"
indexmap = "2"
ratatui = "0.26"
