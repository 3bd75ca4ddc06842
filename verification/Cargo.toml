[package]
name = "cargo-avr"
version = "0.1.0"
edition = "2021"
publish = false

[dependencies]
anyhow = "1"
clap = { version = "4", features = ["derive", "env"] }
colored = "2"
elf = "0.7"
merge = { version = "0.1", default-features = false, features = ["std"] }
serde = { version = "1", features = ["derive"] }
serialport = { version = "4", default-features = false }
toml = "0.8"
tracing = "0.1"
tracing-subscriber = "0.3"
