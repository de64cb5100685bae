[package]
name = "elicit"
version = "0.1.0"
edition = "2021"
publish = false

[dependencies]
lopdf = "*"
pdf-extract = "*"
axum = { version = "*", features = ["multipart"] }
tokio = { version = "*", features = ["full"] }
tower = "*"
tower-http = { version = "*", features = ["cors", "trace"] }
serde = { version = "*", features = ["derive"] }
serde_json = "*"
tempfile = "*"
uuid = { version = "*", features = ["v4"] }
chrono = "*"
once_cell = "*"
