[package]
name = "video_search"
version = "0.1.0"
edition = "2021"
publish = false

[dependencies]
regex = "1"
serde_json = "1"
urlencoding = "2"
reqwest = { version = "0.11", features = ["json"] }
serde = { version = "1", features = ["derive"] }
async-trait = "0.1"
serenity = "0.12"
tracing = "0.1"
tokio = { version = "1", features = ["macros", "rt-multi-thread"] }
