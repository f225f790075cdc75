[package]
name = "udco2s"
version = "0.1.0"
edition = "2021"
publish = false

[dependencies]
actix-files = "0.6"
actix-web = "4"
dotenv = "0.15"
serde = { version = "1", features = ["derive"] }
serial = "0.4"
