[package]
name = "avatar_service"
version = "0.1.0"
edition = "2021"
publish = false

[dependencies]
uuid = { version = "*", features = ["v4"] }
chrono = "*"
actix-web = "*"
actix-files = "*"
actix-multipart = "*"
futures = "*"
handlebars = "*"
serde = { version = "*", features = ["derive"] }
dotenv = "*"
env_logger = "*"
