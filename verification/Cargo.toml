[package]
name = "interra_client"
version = "0.1.0"
edition = "2021"
publish = false

[dependencies]
serde_json = "*"
serde = { version = "*", features = ["derive"] }
serde_repr = "*"
tokio = { version = "*", features = ["net", "io-util", "sync", "time", "rt", "macros"] }
actix-web = { version = "*", default-features = false, features = ["macros"] }
env_logger = "*"
