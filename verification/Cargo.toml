[package]
name = "imageboard"
version = "0.1.0"
edition = "2021"
publish = false

[dependencies]
chrono = "0.4"
serde_json = "1"
serde = { version = "1", features = ["derive"] }
serde_derive = "1"
actix = "0.9"
actix-web = "2"
actix-rt = "1"
actix-multipart = "0.2"
actix-files = "0.2"
askama = "0.9"
bytes = "0.5"
futures = "0.3"
diesel = { version = "1.4", features = ["postgres", "r2d2", "chrono"] }
r2d2 = "0.8"
dotenv = "0.15"
env_logger = "0.7"
