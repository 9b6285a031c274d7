[package]
name = "rust_mcp"
version = "0.1.0"
edition = "2021"
publish = false

[dependencies]
url = "=2.5.8"
form_urlencoded = "=1.2.2"
rand = "=0.8.8"
clap = { version = "=4.6.7", features = ["derive"] }
dirs = "=5.0.1"
dotenv = "=0.15.0"
headless_chrome = "=0.9.0"
keyring = "=4.2.0"
reqwest = { version = "=0.12.28", default-features = false, features = ["json"] }
serde = { version = "=1.0.229", features = ["derive"] }
serde_json = "=1.0.151"
tokio = { version = "=1.53.2", features = ["macros", "rt-multi-thread", "time"] }
