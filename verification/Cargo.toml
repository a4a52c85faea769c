[package]
name = "slidetalker"
version = "0.1.0"
edition = "2021"
publish = false

[dependencies]
chrono = "=0.4.45"
dotenv = "=0.15.0"
env_logger = "=0.10.2"
lettre = { version = "=0.11.23", default-features = false, features = ["builder", "smtp-transport", "rustls-tls"] }
log = "=0.4.34"
rand = "=0.8.8"
reqwest = { version = "=0.11.27", default-features = false, features = ["json"] }
rocket = { version = "=0.5.2", features = ["json"] }
rusqlite = { version = "=0.31.0", features = ["bundled", "chrono"] }
serde = { version = "=1.0.229", features = ["derive"] }
serde_json = "=1.0.154"
tokio = { version = "=1.54.1", features = ["full"] }
