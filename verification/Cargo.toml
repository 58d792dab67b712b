[package]
name = "mock_openai"
version = "0.1.0"
edition = "2021"
publish = false

[dependencies]
rand = "0.8"
lipsum = "0.9"
serde_json = "1"
uuid = { version = "1", features = ["v4"] }
serde = { version = "1", features = ["derive"] }
actix-web = { version = "4", default-features = false, features = ["macros"] }
tokio = { version = "1", default-features = false, features = ["time"] }
futures = "0.3"
bytes = "1"
clap = { version = "4", features = ["derive"] }
