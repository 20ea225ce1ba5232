[package]
name = "file_share"
version = "0.1.0"
edition = "2021"
publish = false

[dependencies]
actix = "*"
actix-cors = "*"
actix-multipart = "*"
actix-web = "*"
actix-web-actors = "*"
chrono = { version = "*", features = ["serde"] }
env_logger = "*"
futures = "*"
futures-util = "*"
log = "*"
mime_guess = "*"
sanitize-filename = "*"
serde = { version = "*", features = ["derive"] }
serde_json = "*"
tempfile = "*"
tokio = { version = "*", features = ["fs", "io-util"] }
tokio-util = { version = "*", features = ["io"] }
uuid = { version = "*", features = ["v4"] }
