[package]
name = "axonerai"
version = "0.1.0"
edition = "2021"
publish = false

[dependencies]
anyhow = "*"
async-trait = "*"
reqwest = { version = "*", default-features = false, features = ["json", "rustls-tls"] }
scraper = "*"
serde = { version = "*", features = ["derive"] }
serde_json = "*"
tokio = { version = "*", features = ["macros", "rt-multi-thread"] }
uuid = { version = "*", features = ["v4"] }
