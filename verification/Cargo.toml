[package]
name = "tailburrow"
version = "0.1.0"
edition = "2021"
publish = false

[dependencies]
chrono = "0.4"
image = { version = "0.24", default-features = false, features = ["jpeg", "png"] }
md5 = "0.7"
reqwest = { version = "0.12", default-features = false, features = ["blocking", "json"] }
rusqlite = "0.32"
scraper = "0.20"
serde = { version = "1", features = ["derive"] }
serde_json = "1"
tokio = { version = "1", features = ["time"] }
