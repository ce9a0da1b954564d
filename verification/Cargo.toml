[package]
name = "p2d_core"
version = "0.1.0"
edition = "2021"
publish = false

[dependencies]
arboard = { version = "3", default-features = false }
enigo = "*"
serde = { version = "1", features = ["derive"] }
serde_json = "1"
