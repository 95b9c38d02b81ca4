[package]
name = "clients"
version = "0.1.0"
edition = "2021"
publish = false

[dependencies]
rusqlite = { version = "=0.40.2", features = ["bundled"] }
serde = { version = "=1.0.229", features = ["derive"] }
serde_json = "=1.0.151"
reqwest = { version = "=0.13.5", default-features = false, features = ["json", "query"] }
tokio = { version = "=1.53.2", features = ["rt", "macros", "time"] }
futures = "=0.3.34"
chrono = "=0.4.45"
anyhow = "=1.0.104"
phf = { version = "=0.14.0", features = ["macros"] }
dotenvy = "=0.15.7"
