[package]
name = "ghost_gateway"
version = "0.1.0"
edition = "2021"
publish = false

[dependencies]
uuid = { version = "*", features = ["v4"] }
axum = "*"
tokio = { version = "*", features = ["full"] }
reqwest = { version = "*", default-features = false, features = ["json"] }
serde = { version = "*", features = ["derive"] }
serde_json = "*"
chrono = "*"
dotenvy = "*"
anyhow = "*"
tower-http = { version = "*", features = ["cors"] }

[dev-dependencies]
