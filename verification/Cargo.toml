[package]
name = "sugarfunge_integration"
version = "0.1.0"
edition = "2021"
publish = false

[dependencies]
actix-cors = "*"
actix-web = "*"
awc = "*"
dotenv = "*"
env_logger = "*"
ethcontract = "*"
log = "*"
serde = { version = "*", features = ["derive"] }
serde_json = "*"
snailquote = "*"
