[package]
name = "sk8brd"
version = "0.1.0"
edition = "2021"
publish = false

[dependencies]
asynchronous-codec = "*"
anyhow = "*"
clap = { version = "*", features = ["derive"] }
colored = "*"
crossterm = "*"
os_pipe = "*"
russh = "*"
serde = { version = "*", features = ["derive"] }
tokio = { version = "*", features = ["full"] }
