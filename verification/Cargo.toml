[package]
name = "usuarios_api"
version = "0.1.0"
edition = "2021"
publish = false

[dependencies]
actix-web = "4"
anyhow = "1"
deadpool = "*"
deadpool-postgres = "*"
dotenv = "0.15"
serde = { version = "1", features = ["derive"] }
tokio-postgres = "0.7"
