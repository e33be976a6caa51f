[package]
name = "voicebot"
version = "0.1.0"
edition = "2021"
publish = false

[dependencies]
chrono = "0.4"
ctrlc = "3"
dotenv = "0.15"
serde = { version = "1", features = ["derive"] }
serde_json = "1"
serenity = { version = "0.8", features = ["voice"] }
thiserror = "1"
