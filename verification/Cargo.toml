[package]
name = "job_alert_engine"
version = "0.1.0"
edition = "2021"
publish = false

[dependencies]
mail-parser = "*"
base64 = "*"
hex = "*"
hmac = "*"
sha2 = "*"
subtle = "*"
chrono = "*"
serde = { version = "*", features = ["derive"] }
serde_json = "*"
reqwest = { version = "*", default-features = false }
axum = "*"
tokio = { version = "*", features = ["rt-multi-thread", "macros", "net", "time"] }
resend-rs = "*"
lopdf = "*"
anyhow = "*"
tracing = "*"
bytes = "*"
apalis = "*"
apalis-cron = "*"
