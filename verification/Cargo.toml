[package]
name = "ouija_chess"
version = "0.1.0"
edition = "2021"
publish = false

[dependencies]
chess = "3.2"
rand = "0.8"
qrcode-generator = "4"
axum = "0.5"
tokio = { version = "1", features = ["full"] }
tower = "0.4"
tower-http = { version = "0.3", features = ["fs"] }
futures = "0.3"
async-stream = "0.3"
serde = { version = "1", features = ["derive"] }
