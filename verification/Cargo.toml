[package]
name = "zaa"
version = "0.1.0"
edition = "2021"
publish = false

[dependencies]
clipboard = "0.5"
dotenv = "0.15"
home = "0.5"
reqwest = { version = "0.11", features = ["json"] }
serde = { version = "1", features = ["derive"] }
serde_json = "1"
tokio = { version = "1", features = ["macros", "rt-multi-thread"] }
