[package]
name = "iqamah"
version = "0.1.0"
edition = "2021"
publish = false

[dependencies]
anyhow = "=1.0.104"
async-trait = "=0.1.92"
chrono = { version = "=0.4.45", features = ["serde"] }
log = "=0.4.34"
regex = "=1.13.1"
reqwest = { version = "=0.13.5", default-features = false, features = ["json", "query"] }
scraper = "=0.27.0"
serde = { version = "=1.0.229", features = ["derive"] }
serde_json = "=1.0.151"
sqlx = { version = "=0.9.0", default-features = false, features = ["runtime-tokio", "sqlite", "macros"] }
thiserror = "=2.0.21"
tokio = { version = "=1.53.2", default-features = false, features = ["rt", "macros", "time"] }
