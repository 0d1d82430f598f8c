[package]
name = "page_relevance"
version = "0.1.0"
edition = "2021"
publish = false

[dependencies]
axum = "0.7"
chatgpt_rs = { version = "1", features = ["streams"] }
dotenv = "0.15"
futures-util = "0.3"
reqwest = { version = "0.11", features = ["json"] }
serde = { version = "1", features = ["derive"] }
serde_json = "1"
tokio = { version = "1", features = ["full"] }
tower = "0.4"
tower-http = { version = "0.5", features = ["cors"] }
