[package]
name = "cocktail_bot_hal"
version = "0.1.0"
edition = "2021"
publish = false

[dependencies]
serde = { version = "1", features = ["derive"] }
serde_json = "1"
embedded-io-async = "0.6"
embassy-net = { version = "0.6", features = ["tcp", "proto-ipv4", "medium-ethernet"] }
embassy-time = "0.4"
embassy-executor = { version = "0.7", features = ["arch-std", "executor-thread"] }
static_cell = "2"
regex = "1"
rgb = "0.8"
reqwest = { version = "0.12", default-features = false, features = ["blocking"] }
