[package]
name = "langchain_bridge"
version = "4.6.0"
edition = "2021"
publish = false

[dependencies]
once_cell = "1"
thiserror = "1"
tokio = { version = "1", features = ["rt-multi-thread"] }
uniffi = "*"
url = "2"
