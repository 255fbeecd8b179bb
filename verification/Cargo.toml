[package]
name = "chat_template"
version = "0.1.0"
edition = "2021"
publish = false

[dependencies]
minijinja = "1"
serde = { version = "1", features = ["derive"] }
thiserror = "1"
