[package]
name = "resolve"
version = "0.1.0"
edition = "2021"
publish = false

[dependencies]
bcrypt = "0.17"
jsonwebtoken = "9"
sha2 = "0.10"
rand = "0.9"
serde = { version = "1", features = ["derive"] }
serde_json = "1"
chrono = "0.4"
actix-web = { version = "4", default-features = false, features = ["macros", "cookies"] }
actix-cors = "0.7"
mongodb = "3"
futures = "0.3"
reqwest = { version = "0.12", default-features = false, features = ["json", "rustls-tls"] }
dotenvy = "0.15"
env_logger = "0.11"
log = "0.4"
