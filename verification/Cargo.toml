[package]
name = "university_registration"
version = "0.1.0"
edition = "2021"
publish = false

[dependencies]
anyhow = "=1.0.104"
bcrypt = "=0.19.3"
chrono = { version = "=0.4.45", features = ["serde"] }
dotenvy = "=0.15.7"
fjall = "=3.1.13"
jsonwebtoken = "=9.3.1"
serde = { version = "=1.0.229", features = ["derive"] }
serde_json = { version = "=1.0.154", features = ["preserve_order"] }
uuid = { version = "=1.29.0", features = ["v4"] }
