[package]
name = "chainpost"
version = "0.1.0"
edition = "2021"
publish = false

[dependencies]
actix-cors = "=0.7.2"
actix-files = "=0.7.3"
actix-web = "=4.18.1"
askama_actix = "=0.14.0"
chrono = "=0.4.45"
csv = "=1.4.0"
env_logger = "=0.11.11"
jsonwebtoken = "=8.3.0"
libsql-client = { version = "=0.33.4", default-features = false, features = ["reqwest_backend"] }
log = "=0.4.35"
reqwest = { version = "=0.11.27", features = ["json"] }
serde = { version = "=1.0.229", features = ["derive"] }
url = "=2.5.8"
