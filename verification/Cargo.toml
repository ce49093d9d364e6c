[package]
name = "fefix"
version = "0.1.0"
edition = "2021"
publish = false

[dependencies]
heck = "0.3"
chrono = "0.4"

[dev-dependencies]
syn = { version = "1", features = ["full"] }
