[package]
name = "ked"
version = "0.1.0"
edition = "2021"
publish = false

[dependencies]
unicode-width = "*"
termion = "*"
getopts = "*"
serde = { version = "*", features = ["derive"] }
serde_json = "*"
