[package]
name = "scrape_facade"
version = "0.1.0"
edition = "2021"
publish = false

[dependencies]
serde_json = "1"
serde = { version = "1", features = ["derive"] }
actix-web = "4"
firecrawl = "*"
dotenv = "0.15"
env_logger = "*"
