[package]
name = "auth_server"
version = "0.1.0"
edition = "2021"
publish = false

[dependencies]
askama = "*"
axum = "*"
base64 = "*"
rand = "*"
redis = { version = "*", features = ["tokio-comp"] }
serde = { version = "*", features = ["derive"] }
serde_json = "*"
serde_urlencoded = "*"
serde_yaml = "*"
tokio = { version = "*", features = ["macros", "rt-multi-thread"] }
url = "*"
uuid = { version = "*", features = ["v4"] }
