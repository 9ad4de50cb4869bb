[package]
name = "wfm_rs"
version = "0.1.0"
edition = "2021"
publish = false

[dependencies]
levenshtein = "=1.0.5"
anyhow = "=1.0.104"
serde = { version = "=1.0.229", features = ["derive"] }
serde_json = "=1.0.154"
reqwest = { version = "=0.11.27", default-features = false, features = ["rustls-tls"] }
tokio = { version = "=1.54.1", features = ["rt-multi-thread", "macros", "time"] }
tungstenite = { version = "=0.21.0", features = ["rustls-tls-webpki-roots"] }
leaky-bucket = "=1.1.2"
colored = "=2.2.0"
text_io = "=0.1.13"
home = "=0.5.12"
log = "=0.4.34"
pretty_env_logger = "=0.5.0"
chrono = { version = "=0.4.45", features = ["serde"] }
crossbeam-channel = "=0.5.17"
parking_lot = "=0.12.5"
image = { version = "=0.24.9", default-features = false, features = ["png"] }
tesseract = "0.15"
