[package]
name = "eloran"
version = "0.1.0"
edition = "2021"
publish = false

[dependencies]
horrorshow = "0.8"
time = { version = "0.3", features = ["formatting"] }
urlencoding = "2"
password-auth = "1"
argon2 = { version = "0.5", features = ["std"] }
image = { version = "0.24", default-features = false, features = ["jpeg", "png"] }
ulid = "1"
serde = { version = "1", features = ["derive"] }
log = "0.4"
env_logger = "0.11"
tokio = { version = "1", features = ["rt-multi-thread", "macros", "time", "net"] }
axum = "0.8"
axum-login = "*"
tower = { version = "0.5", features = ["util"] }
async-trait = "0.1"
sqlx = { version = "0.8", default-features = false, features = ["runtime-tokio", "sqlite", "derive", "migrate"] }
jwalk = "0.8"
compress-tools = "0.15"
epub = "2"
poppler-rs = "*"
cairo-rs = { version = "*", features = ["pdf", "png"] }
