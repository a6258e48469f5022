[package]
name = "feedtui"
version = "0.1.0"
edition = "2021"
publish = false

[dependencies]
anyhow = "1"
async-trait = "0.1"
futures = "0.3"
image = { version = "0.25", default-features = false, features = ["png", "jpeg", "gif"] }
jiff = "0.2"
ratatui = "0.29"
reqwest = { version = "0.12", features = ["json"] }
scraper = "*"
serde = { version = "1", features = ["derive"] }
serde_json = "1"
tokio = { version = "1", features = ["process", "rt-multi-thread", "macros"] }
urlencoding = "2"
