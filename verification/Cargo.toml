[package]
name = "nt_payments"
version = "0.1.0"
edition = "2021"
publish = false

[dependencies]
base64 = "0.22.1"
serde_json = "1"
chrono = "0.4"
color-eyre = "0.6"
colored = "3"
inquire = "0.9"
interactive-clap = "0.3"
near-primitives = { version = "0.38", default-features = false }
near-token = "0.3"
strum = { version = "0.27", features = ["derive"] }
tracing = "0.1"
