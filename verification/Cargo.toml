[package]
name = "contact_mailer"
version = "0.1.0"
edition = "2021"
publish = false

[dependencies]
reqwest = { version = "*", default-features = false }
serde = { version = "*", features = ["derive"] }
worker = "*"

[dev-dependencies]
serde_json = "*"
