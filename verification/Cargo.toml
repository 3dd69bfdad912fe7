[package]
name = "rushmap_db"
version = "0.1.0"
edition = "2021"
publish = false

[dependencies]
rusqlite = "0.29"
