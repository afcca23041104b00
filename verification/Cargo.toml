[package]
name = "task_overlay"
version = "0.1.0"
edition = "2021"
publish = false

[dependencies]
dotenv = "0.15"
notion = "*"
serde = { version = "1", features = ["derive"] }
tokio = { version = "1", features = ["rt"] }
