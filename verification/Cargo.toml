[package]
name = "discord_search"
version = "0.1.0"
edition = "2021"
publish = false

[dependencies]
url = "2"
serenity = "0.10"
sqlx = { version = "0.5", default-features = false, features = ["sqlite", "runtime-tokio-rustls"] }
tokio = { version = "1", features = ["macros", "rt-multi-thread"] }
toml = "0.5"
serde = { version = "1", features = ["derive"] }
once_cell = "1"
chrono = "0.4"
