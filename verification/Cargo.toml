[package]
name = "nri_core"
version = "0.1.0"
edition = "2021"
publish = false

[dependencies]
argon2 = "*"
axum = "*"
axum-extra = { version = "*", features = ["cookie"] }
futures-util = "*"
hex = "*"
hmac = "*"
josekit = "*"
rand = "*"
serde = { version = "*", features = ["derive"] }
serde_json = "*"
sha2 = "*"
tokio = { version = "*", features = ["rt", "sync", "time", "signal", "macros"] }
tokio-stream = { version = "*", features = ["sync"] }
uuid = { version = "*", features = ["v4"] }
