[package]
name = "echo_server"
version = "0.1.0"
edition = "2021"
publish = false

[dependencies]
serde_json = { version = "1", features = ["preserve_order"] }
base64 = "0.13"
rust-argon2 = "1"
getrandom = "0.2"
async-std = { version = "1", features = ["attributes"] }
async-tls = "0.11"
rustls = "0.19"
rustls-pemfile = "1"
sqlx = { version = "0.6", default-features = false, features = ["postgres", "runtime-async-std-rustls"] }
dotenv = "0.15"
env_logger = "0.9"
log = "0.4"
