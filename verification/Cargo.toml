[package]
name = "api_gateway"
version = "0.1.0"
edition = "2021"
publish = false

[dependencies]
axum = "0.7"
chrono = { version = "0.4", features = ["serde"] }
deadpool-diesel = { version = "0.6", features = ["mysql"] }
diesel = { version = "2", features = ["mysql", "chrono"] }
diesel_migrations = { version = "2", features = ["mysql"] }
dotenvy = "0.15"
futures-util = "0.3"
rand = "0.8"
rocket = "0.5"
serde = { version = "1", features = ["derive"] }
tokio = { version = "1", features = ["full"] }
tower = { version = "0.4", features = ["util"] }
tower-http = { version = "0.5", features = ["trace"] }
