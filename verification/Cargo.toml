[package]
name = "kanban"
version = "0.1.0"
edition = "2021"
publish = false

[dependencies]
moka = { version = "0.12", features = ["sync"] }
uuid = { version = "1", features = ["v4"] }
axum = "0.7"
tokio = { version = "1", features = ["full"] }
sqlx = { version = "0.8", features = ["runtime-tokio", "sqlite"] }
tower-http = { version = "0.5", features = ["cors"] }
serde = { version = "1", features = ["derive"] }
serde_json = "1"
reqwest = { version = "0.12", features = ["blocking", "json"] }
clap = { version = "4", features = ["derive", "env"] }
anyhow = "1"
