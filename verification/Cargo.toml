[package]
name = "seatalk_tgs"
version = "0.1.0"
edition = "2021"
publish = false

[dependencies]
axum = "=0.8.9"
backon = "=1.6.0"
base64 = "=0.23.1"
bytes = "=1.12.1"
chrono = "=0.4.45"
config = "=0.15.27"
governor = "=0.10.4"
http = "=1.5.0"
reqwest = { version = "=0.13.5", default-features = false }
serde = { version = "=1.0.229", features = ["derive"] }
serde_json = "=1.0.151"
takecell = "=0.1.1"
teloxide = "=0.17.0"
temp-dir = "=0.2.0"
tokio = { version = "=1.53.2", features = ["full"] }
url = "=2.5.8"
