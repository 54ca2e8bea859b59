[package]
name = "staged"
version = "0.1.0"
edition = "2021"
publish = false

[dependencies]
subtle = "2"
hex = "0.4"
rand = "0.9"
base64 = "0.22"
serde = { version = "1", features = ["derive"] }
serde_json = "1"
time = "0.3"
tokio = { version = "1", features = ["full"] }
axum = { version = "0.8", features = ["ws"] }
axum-extra = { version = "0.10", features = ["cookie"] }
tokio-rustls = "0.26"
rustls = "0.23"
tower-http = { version = "0.6", features = ["cors", "fs"] }
log = "0.4"
