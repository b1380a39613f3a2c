[package]
name = "qa_board"
version = "0.1.0"
edition = "2021"
publish = false

[dependencies]
uuid = "*"
sqlx = { version = "*", default-features = false, features = ["runtime-tokio", "postgres", "uuid"] }
async-trait = "*"
dotenvy = "*"
log = "*"
pretty_env_logger = "*"
