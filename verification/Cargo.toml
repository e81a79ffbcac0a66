[package]
name = "sqlbuild"
version = "0.1.0"
edition = "2021"
publish = false

[dependencies]
rusqlite = { version = "=0.31.0", features = ["array", "bundled"] }
chrono = "=0.4.45"
