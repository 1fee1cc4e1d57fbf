[package]
name = "task_scheduler_rust"
version = "0.2.0"
edition = "2021"
publish = false

[dependencies]
tokio = { version = "*", features = ["full"] }
serde = { version = "*", features = ["derive"] }
serde_json = "*"
rand = "*"
clap = { version = "*", features = ["derive"] }
futures = "*"
http = "*"
hyper = { version = "0.14", features = ["full"] }

[dev-dependencies]
uuid = { version = "*", features = ["v4"] }
