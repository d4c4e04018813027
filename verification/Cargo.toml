[package]
name = "llm_loader"
version = "0.1.0"
edition = "2021"
publish = false

[dependencies]
ggml = "*"
memmap2 = "0.5"
thiserror = "1"
