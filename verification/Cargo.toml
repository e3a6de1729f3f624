[package]
name = "gitdash"
version = "0.1.0"
edition = "2021"
publish = false

[dependencies]
anyhow = "1"
crossbeam = "0.8"
crossterm = "0.25"
git2 = { version = "*", default-features = false }
tui = "0.19"
