[package]
name = "advent_input"
version = "0.1.0"
edition = "2021"
publish = false

[dependencies]
reqwest = { version = "0.12", default-features = false, features = ["blocking"] }
chrono = "0.4"
clap = { version = "4", features = ["derive"] }
