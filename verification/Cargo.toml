[package]
name = "ghaction_trigger"
version = "0.1.0"
edition = "2021"
publish = false

[dependencies]
anyhow = "1"
async-trait = "0.1"
clap = { version = "3", features = ["derive"] }
serde = { version = "1", features = ["derive"] }
tracing = "0.1"
wasmtime-wasi = "22"
