[package]
name = "gt6n"
version = "0.1.0"
edition = "2021"
publish = false

[dependencies]
bon = "*"
lotus-rt = "*"
lotus-script = "*"
serde = { version = "*", features = ["derive"] }
