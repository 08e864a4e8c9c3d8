[package]
name = "ibkr_flex_statement"
version = "0.1.0"
edition = "2021"
publish = false

[dependencies]
roxmltree = "*"
chrono = "*"
chrono-tz = "*"
