[package]
name = "cdown"
version = "0.1.0"
edition = "2021"
publish = false

[dependencies]
anyhow = "1"
crossterm = "0.25"
humantime = "2"
structopt = "0.3"
tui = "0.19"
