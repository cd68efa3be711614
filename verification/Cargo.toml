[package]
name = "gitstage"
version = "0.1.0"
edition = "2021"
publish = false

[dependencies]
anyhow = "1"
crossterm = "0.25"
git2 = { version = "0.16", default-features = false }
tui = "0.19"
