[package]
name = "oxmail"
version = "0.1.0"
edition = "2021"
publish = false

[dependencies]
kuchikiki = "*"
reqwest = { version = "*", default-features = false, features = ["blocking"] }
crossterm = "*"
ratatui = "*"
