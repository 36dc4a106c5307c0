[package]
name = "yoshino"
version = "0.1.0"
edition = "2021"
publish = false

[dependencies]
libsqlite3-sys = { version = "*", features = ["bundled"] }
