[package]
name = "ht16k33"
version = "0.1.0"
edition = "2021"
publish = false

[dependencies]
embedded-hal = "0.2"
serde = { version = "1", features = ["derive"] }
