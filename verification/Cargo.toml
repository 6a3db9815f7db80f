[package]
name = "cdc_bridge"
version = "0.1.0"
edition = "2021"
publish = false

[dependencies]
anyhow = "1"
async-ctrlc = "1.2"
async-std = { version = "1", features = ["attributes"] }
dotenv = "0.15"
either = "1"
env_logger = "0.8"
envy = "0.4"
futures = "0.3"
futures-channel = "0.3"
jemallocator = "0.3"
lapin = { version = "1", default-features = false, features = ["rustls"] }
log = "0.4"
serde = { version = "1", features = ["derive"] }
serde_json = "1"
smol_str = "0.1"
sqlx = { version = "0.5", default-features = false, features = ["runtime-async-std-rustls", "postgres", "macros"] }
