[package]
name = "prompt_query"
version = "0.1.0"
edition = "2021"
publish = false

[dependencies]
openai = "*"
tokio = { version = "*", features = ["rt-multi-thread"] }
