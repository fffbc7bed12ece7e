[package]
name = "gmlparser"
version = "0.1.0"
edition = "2021"
publish = false

[dependencies]
quick-xml = "*"
rusqlite = { version = "*", features = ["bundled"] }
