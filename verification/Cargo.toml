[package]
name = "kimikuri"
version = "0.1.0"
edition = "2021"
publish = false

[dependencies]
bs58 = "=0.5.1"
urandom = "=0.2.2"
takecell = "=0.1.1"
sqlx = { version = "*", default-features = false, features = ["sqlite", "runtime-tokio"] }
teloxide = { version = "*", features = ["macros"] }
tokio = { version = "*", features = ["macros", "rt-multi-thread", "signal"] }
warp = { version = "*", features = ["server"] }
serde = { version = "*", features = ["derive"] }
serde_json = "*"
tracing = "*"
tracing-appender = "*"
tracing-subscriber = "*"
futures = "*"
