[package]
name = "lorelei"
version = "0.1.0"
edition = "2021"
publish = false

[dependencies]
dotenv = "0.15"
serde = { version = "1", features = ["derive"] }
serde_json = "1"
serenity = "0.11"
songbird = { version = "0.3", features = ["builtin-queue"] }
tokio = { version = "1", features = ["macros", "rt-multi-thread", "signal", "sync"] }
tracing = "0.1"
tracing-subscriber = "0.3"
