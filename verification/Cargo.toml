[package]
name = "game"
version = "0.1.0"
edition = "2021"
publish = false

[dependencies]
structopt = "0.3"
async-std = "1"
dotenv = "0.15"
serde = { version = "1", features = ["derive"] }
serde_json = "1"
