[package]
name = "ipc_flowmeter"
version = "0.1.0"
edition = "2021"
publish = false

[dependencies]
uuid = { version = "1", features = ["v4"] }
chrono = { version = "0.4", default-features = false, features = ["clock", "std"] }
serde = { version = "1", features = ["derive"] }
serde_json = "1"
toml = "0.8"
clap = "4"
log = "0.4"
env_logger = "*"
anyhow = "1"
thiserror = "*"
async-trait = "0.1"
tokio = { version = "1", features = ["full"] }
tokio-tungstenite = "*"
futures-util = "0.3"
actix-web = { version = "4", default-features = false, features = ["macros"] }
sqlx = { version = "*", default-features = false, features = ["runtime-tokio", "sqlite"] }
