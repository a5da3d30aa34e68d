[package]
name = "brush"
version = "0.1.0"
edition = "2021"
publish = false

[dependencies]
parse-size = "*"
hashbrown = "*"
glam = "*"
serde = { version = "*", features = ["derive"] }
serde_json = "*"
clap = { version = "*", features = ["derive"] }
log = "*"
rand = "*"
tokio = { version = "*", features = ["fs", "io-util", "rt", "macros"] }
