[package]
name = "social_backend"
version = "0.1.0"
edition = "2021"
publish = false

[dependencies]
actix-cors = "0.5"
actix-web = { version = "3", default-features = false }
actix-web-httpauth = "0.5"
argon2 = "0.3"
chrono = { version = "0.4", features = ["serde"] }
diesel = { version = "1.4", features = ["mysql", "r2d2", "chrono"] }
dotenv = "0.15"
env_logger = "0.8"
log = "0.4"
maplit = "1"
rand = "0.8"
serde = { version = "1", features = ["derive"] }
serde_derive = "1"
strum = "0.20"
uuid = { version = "0.8", features = ["v4", "serde"] }
validator = { version = "0.14", features = ["derive"] }
