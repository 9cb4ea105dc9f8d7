[package]
name = "chat_backend"
version = "0.1.0"
edition = "2021"
publish = false

[dependencies]
chrono = { version = "0.4", default-features = false }
argonautica = "0.2"
async-graphql = { version = "3", default-features = false }
futures = "0.3"
futures-util = "0.3"
