[package]
name = "data_forward_server"
version = "0.1.0"
edition = "2021"
publish = false

[dependencies]
actix = "*"
actix-web = "*"
actix-ws = "*"
libc = "*"
opencv = { version = "*", default-features = false, features = ["videoio", "imgproc", "imgcodecs"] }
serde = { version = "*", features = ["derive"] }
serde_bytes = "*"
serde_json = "*"
thiserror = "*"
tokio = { version = "*", features = ["sync", "time", "rt", "macros"] }
tracing = "*"
tracing-appender = "*"
tracing-subscriber = { version = "*", features = ["env-filter"] }
uuid = { version = "*", features = ["v4", "serde"] }
