[package]
name = "freee_timecard"
version = "0.1.0"
edition = "2021"
publish = false

[dependencies]
anyhow = "*"
clap = { version = "*", features = ["derive"] }
confy = "*"
headless_chrome = "*"
serde = { version = "*", features = ["derive"] }
