[package]
name = "todo_service"
version = "0.1.0"
edition = "2021"
publish = false

[dependencies]
ulid = "*"
chrono = "*"
serde = { version = "*", features = ["derive"] }
axum = "*"
tokio = { version = "*", features = ["macros", "rt-multi-thread"] }
dotenvy = "*"
