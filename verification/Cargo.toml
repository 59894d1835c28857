[package]
name = "g213_colours"
version = "0.1.0"
edition = "2021"
publish = false

[dependencies]
rusb = "*"
hex = "*"
rand = "*"
dirs = "*"
libc = "*"
users = "*"
serde = { version = "*", features = ["derive"] }
serde_json = "*"
