[package]
name = "scitsifreine"
version = "0.1.0"
edition = "2021"
publish = false

[dependencies]
ascii_table = "*"
chrono = "*"
clap = { version = "*", features = ["derive"] }
fern = "*"
log = "*"
