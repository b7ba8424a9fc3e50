[package]
name = "llama_engine"
version = "0.1.0"
edition = "2021"
publish = false

[dependencies]
safetensors = "0.8.0"
tokenizers = "0.23.2"
serde = { version = "1.0.229", features = ["derive"] }
serde_json = "1.0.151"
