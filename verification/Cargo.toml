[package]
name = "forensic_rs"
version = "0.1.0"
edition = "2021"
publish = false

[dependencies]
log = "0.4"
serde = { version = "1.0", features = ["derive"] }

[dev-dependencies]
anyhow = "1.0"
