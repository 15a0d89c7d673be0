[package]
name = "server_watch"
version = "0.1.0"
edition = "2021"
publish = false

[dependencies]
scraper = "*"
ureq = "*"
clap = { version = "*", features = ["derive"] }
notify-rust = "*"
