[package]
name = "tictac"
version = "0.1.0"
edition = "2021"
publish = false

[dependencies]
rand = "0.8"
serde = { version = "1", features = ["derive"] }
serde_json = "1"
ureq = "2"
const_format = "0.2"
