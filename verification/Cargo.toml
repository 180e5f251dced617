[package]
name = "netflix_clone"
version = "0.1.0"
edition = "2021"
publish = false

[dependencies]
bcrypt = "0.15"
chrono = "0.4"
actix-web = "4"
actix-http = "3"
actix-identity = "0.7"
actix-session = { version = "0.9", features = ["cookie-session"] }
actix-multipart = "0.6"
sqlx = { version = "0.7", features = ["sqlite", "runtime-tokio"] }
jsonwebtoken = "9"
serde = { version = "1", features = ["derive"] }
serde_json = "1"
thiserror = "1"
log = "0.4"
env_logger = "0.10"
dotenv = "0.15"
futures = "0.3"
async-stripe = { version = "0.37", default-features = false, features = ["runtime-tokio-hyper-rustls"] }
