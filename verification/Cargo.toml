[package]
name = "bytecore"
version = "0.1.3"
edition = "2021"
publish = false

[dependencies]
bitflags = { version = "2", features = ["serde"] }
serde = { version = "1", features = ["derive"] }
toml = "0.8"
thiserror = "2"
clap = { version = "4", features = ["derive"] }
crossterm = "0.28"
ratatui = "0.29"
