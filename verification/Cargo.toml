[package]
name = "todo_list"
version = "0.1.0"
edition = "2021"

[dependencies]
clap = "4"
serde = { version = "1", features = ["derive"] }
serde_json = "1"
