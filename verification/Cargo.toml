[package]
name = "fedimint_http"
version = "0.1.0"
edition = "2021"
publish = false

[dependencies]
serde_json = "=1.0.151"
serde = { version = "=1.0.229", features = ["derive"] }
lightning-invoice = "=0.34.1"
lnurl-rs = { version = "=0.10.0", default-features = false }
bitcoin = { version = "=0.32.102", features = ["rand-std"] }
tokio = { version = "=1.53.2", features = ["rt-multi-thread", "macros", "net", "sync", "time"] }
axum = { version = "=0.8.9", features = ["ws"] }
futures-util = "=0.3.34"
time = { version = "*", features = ["formatting"] }
