[package]
name = "dalbozz"
version = "0.1.0"
edition = "2021"
publish = false

[dependencies]
futures = "0.3"
itertools = "0.10"
reqwest = { version = "0.11", default-features = false, features = ["rustls-tls"] }
serde_json = "1"
serenity = { version = "0.10", features = ["unstable_discord_api"] }
tokio = { version = "1", features = ["macros", "rt-multi-thread"] }
