[package]
name = "gdext_cli"
version = "0.1.0"
edition = "2021"
publish = false

[dependencies]
anyhow = "1"
capitalize = "0.3"
clap = { version = "4", features = ["derive"] }
path-calculate = "*"
