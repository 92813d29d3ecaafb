[package]
name = "prompt_relay"
version = "0.1.0"
edition = "2021"
publish = false

[dependencies]
actix-cors = "0.7"
actix-web = "4"
dotenv = "0.15"
env_logger = "*"
log = "0.4"
openai = "*"
serde = { version = "1", features = ["derive"] }
serde_json = "1"
