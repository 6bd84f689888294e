[package]
name = "llama_chat"
version = "0.1.0"
edition = "2021"
publish = false

[dependencies]
chat-prompts = "=0.35.3"
endpoints = "=0.38.0"
uuid = { version = "=1.29.0", features = ["v4"] }
wasmedge-wasi-nn = "=0.8.0"
hyper = { version = "0.14", features = ["full"] }
clap = "4"
once_cell = "1"
serde = { version = "1", features = ["derive"] }
serde_json = "1"
