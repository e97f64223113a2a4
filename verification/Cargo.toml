[package]
name = "whisper"
version = "0.1.0"
edition = "2021"
publish = false

[dependencies]
axum = "=0.8.9"
base64 = "=0.23.1"
lambda_http = "=1.3.1"
log = "=0.4.34"
serde = { version = "=1.0.229", features = ["derive"] }
serde_json = "=1.0.151"
tempfile = "=3.27.0"
tokio = { version = "=1.53.2", features = ["macros", "rt-multi-thread"] }
tracing = "=0.1.44"
tracing-subscriber = "=0.3.23"
whisper-rs = "=0.8.0"

[dev-dependencies]
hound = "=3.5.1"
