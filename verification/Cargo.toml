[package]
name = "flowtee"
version = "0.1.0"
edition = "2021"
publish = false

[dependencies]
anyhow = "*"
clap = { version = "*", features = ["derive"] }
dirs = "*"
portable-pty = "*"
serde = { version = "*", features = ["derive"] }
serde_yaml = "*"
strip-ansi-escapes = "*"
terminal_size = "*"
