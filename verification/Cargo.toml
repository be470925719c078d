[package]
name = "gameshop"
version = "0.1.0"
edition = "2021"
publish = false

[dependencies]
actix-files = "0.6"
actix-governor = "*"
actix-web = "4"
argon2 = "0.5"
base64 = "0.22"
chacha20poly1305 = "0.10"
chrono = "0.4"
dotenvy = "0.15"
futures = "0.3"
jsonwebtoken = { version = "10", features = ["rust_crypto"] }
rand = "0.9"
serde = { version = "1", features = ["derive"] }
serde_json = "1"
sha2 = "0.10"
thiserror = "2"
tokio = { version = "1", features = ["macros", "rt-multi-thread"] }
tracing = "0.1"
tracing-appender = "0.2"
tracing-subscriber = "0.3"
uuid = { version = "1", features = ["v4"] }
validator = "*"
validator_derive = "*"
