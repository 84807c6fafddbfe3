[package]
name = "loop_kit"
version = "0.1.0"
edition = "2021"
rust-version = "1.95"
publish = false

[dependencies]
anyhow = "*"
clap = { version = "*", features = ["derive"] }
console = "*"
dialoguer = "*"
notify = "*"
serde = { version = "*", features = ["derive"] }
softbuffer = "*"
toml = "*"
tracing = "*"
tracing-subscriber = "*"
wasmtime = "=48.0.5"
which = "*"
winit = "*"
