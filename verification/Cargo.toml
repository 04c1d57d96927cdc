[package]
name = "faithstats"
version = "0.1.0"
edition = "2021"
publish = false

[dependencies]
anyhow = "1"
chrono = "0.4"
chrono-tz = "*"
clap = { version = "4", features = ["derive"] }
rusqlite = { version = "*", features = ["bundled", "functions"] }
serde = { version = "1", features = ["derive"] }
serde_json = "1"
tabled = "*"
utoipa = "*"
