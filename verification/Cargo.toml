[package]
name = "auth_core"
version = "0.1.0"
edition = "2021"
publish = false

[dependencies]
jsonwebtoken = { version = "=11.1.0", features = ["rust_crypto"] }
serde_json = "=1.0.151"
chrono = "=0.4.45"
serde = { version = "=1.0.229", features = ["derive"] }
actix-web = "=4.15.0"
actix-session = { version = "=0.11.0", features = ["cookie-session"] }
actix-cors = "=0.7.2"
actix-service = "=2.0.3"
actix-multipart = "=0.8.5"
futures = "=0.3.34"
bcrypt = "=0.19.3"
dotenv = "=0.15.0"
tokio = { version = "=1.53.2", features = ["fs", "io-util", "sync"] }
