[package]
name = "deadman"
version = "0.1.0"
edition = "2021"
publish = false

[dependencies]
lettre = { version = "*", default-features = false, features = ["builder", "smtp-transport", "rustls-tls"] }
serde = { version = "*", features = ["derive"] }
serde_json = "*"
