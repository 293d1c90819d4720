[package]
name = "mugle_tui"
version = "0.1.0"
edition = "2021"
publish = false

[dependencies]
cursive = { version = "*", default-features = false, features = ["termion-backend"] }
time = "0.1"
