[package]
name = "tusklet"
version = "0.1.0"
edition = "2021"
publish = false

[dependencies]
anyhow = "1"
async-trait = "0.1"
directories = "*"
percent-encoding = "2"
sea-orm = { version = "1", default-features = false, features = ["sqlx-sqlite", "runtime-tokio", "macros", "with-json"] }
sea-orm-migration = { version = "1", default-features = false }
serde = { version = "1", features = ["derive"] }
serde_json = "1"
shell-words = "1"
tempfile = "3"
tokio = { version = "1", features = ["rt"] }
uuid = { version = "1", features = ["v4"] }
wait-timeout = "0.2"
