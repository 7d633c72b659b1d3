[package]
name = "roomauth"
version = "0.1.0"
edition = "2021"
publish = false

[dependencies]
jsonwebtoken = "9"
serde_json = "1"
uuid = { version = "1", features = ["v4", "v7"] }
serde = { version = "1", features = ["derive"] }
axum = "0.7"
tokio = { version = "1", features = ["macros", "rt-multi-thread", "net"] }
tower-http = { version = "0.5", features = ["cors"] }
dotenvy = "0.15"
