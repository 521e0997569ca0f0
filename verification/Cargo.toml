[package]
name = "tunequeue"
version = "0.1.0"
edition = "2021"
publish = false

[dependencies]
clap = { version = "=4.6.7", features = ["derive"] }
lofty = "=0.25.4"
ratatui = "=0.30.2"
rodio = "=0.19.0"
