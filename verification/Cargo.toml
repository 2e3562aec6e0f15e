[package]
name = "parking_reconciler"
version = "0.1.0"
edition = "2021"
publish = false

[dependencies]
anyhow = "=1.0.104"
serde_json = "=1.0.151"
spin-sdk = "=3.1.1"
time = { version = "=0.3.55", features = ["formatting", "parsing", "macros"] }
