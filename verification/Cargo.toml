[package]
name = "csv_projection"
version = "0.1.0"
edition = "2021"
publish = false

[dependencies]
serde = { version = "1", features = ["derive"] }

[dev-dependencies]
csv = "1"
serde_json = "1"
