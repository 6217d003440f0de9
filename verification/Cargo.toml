[package]
name = "qa_store"
version = "0.1.0"
edition = "2021"
publish = false

[dependencies]
uuid = "*"
sqlx = { version = "*", default-features = false, features = ["postgres", "runtime-tokio"] }
tokio = { version = "*", default-features = false, features = ["rt", "macros"] }
async-trait = "*"
dotenvy = "*"
log = "*"
pretty_env_logger = "*"
