[package]
name = "tg_bot_service"
version = "0.1.0"
edition = "2021"
publish = false

[dependencies]
teloxide = "=0.17.0"
tokio = { version = "=1.53.2", features = ["macros", "rt-multi-thread"] }
dotenvy = "=0.15.7"
takecell = "=0.1.1"
tracing = "*"
tracing-subscriber = { version = "*", features = ["env-filter"] }
