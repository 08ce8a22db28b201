[package]
name = "recipe_bot"
version = "0.1.0"
edition = "2021"
publish = false

[dependencies]
voca_rs = "*"
serde_json = "*"
log = "*"
futures = "*"
telegram-bot = "*"
tokio = { version = "*", features = ["macros", "rt-multi-thread"] }
reqwest = { version = "*", default-features = false, features = ["json", "rustls-tls"] }
