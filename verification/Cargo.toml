[package]
name = "tedit"
version = "0.1.0"
edition = "2021"

[dependencies]
crossterm = "0.28"
