[package]
name = "nt_player"
version = "0.1.0"
edition = "2021"
publish = false

[dependencies]
crossbeam = "*"
log = "*"
serde = { version = "*", features = ["derive"] }
serde_yaml = "*"
log4rs = "*"
chrono = "*"
