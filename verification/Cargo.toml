[package]
name = "query_engine"
version = "0.1.0"
edition = "2021"
publish = false

[dependencies]
actix-web = { version = "4", default-features = false }
anyhow = "1"
async-trait = "0.1"
bcrypt = "0.15"
colored = "2"
futures-util = "0.3"
jsonwebtoken = "9"
lettre = "0.11"
once_cell = "1"
rand = "0.8"
redis = { version = "0.25", features = ["tokio-comp"] }
regex = "1"
serde = { version = "1", features = ["derive"] }
serde_json = { version = "1", features = ["preserve_order"] }
sqlx = { version = "0.8", default-features = false, features = ["postgres"] }
tokio = { version = "1", features = ["sync", "rt", "net", "macros"] }
tokio-tungstenite = "0.21"
toml = "0.8"
totp-rs = "5"
url = "2"
uuid = { version = "1", features = ["v4"] }
