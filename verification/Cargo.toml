[package]
name = "pastebin"
version = "0.1.0"
edition = "2021"
publish = false

[dependencies]
adjective_adjective_animal = "*"
multipart = { version = "*", default-features = false, features = ["server"] }
serde = { version = "*", features = ["derive"] }
toml = "*"
