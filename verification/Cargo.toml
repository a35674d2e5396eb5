[package]
name = "ellit"
version = "0.1.0"
edition = "2021"
publish = false

[dependencies]
anyhow = "1"
chrono = { version = "0.4", default-features = false, features = ["std"] }
crossterm = "0.25"
rusqlite = "0.31"
tui = { version = "0.19", default-features = false, features = ["crossterm"] }
