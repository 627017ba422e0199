[package]
name = "soundfont_compiler"
version = "0.1.0"
edition = "2021"
publish = false

[dependencies]
chrono = "*"
clap = { version = "*", features = ["derive"] }
riff = "*"
rustysynth = "*"
serde = { version = "*", features = ["derive"] }
toml = { version = "*", features = ["preserve_order"] }
wavers = "*"
