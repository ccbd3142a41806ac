[package]
name = "chat_gateway"
version = "0.1.0"
edition = "2021"
publish = false

[dependencies]
bcrypt = "=0.19.3"
jsonwebtoken = { version = "=11.1.0", default-features = false, features = ["rust_crypto"] }
serde_json = "=1.0.151"
serde = { version = "=1.0.229", features = ["derive"] }
actix-web = { version = "=4.15.0", default-features = false }
actix-rt = "=2.15.0"
reqwest = { version = "=0.13.5", default-features = false, features = ["json"] }
chrono = "=0.4.45"
dotenv = "=0.15.0"
