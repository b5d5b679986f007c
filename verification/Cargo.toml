[package]
name = "ecs_task_spawner"
version = "0.1.0"
edition = "2021"
publish = false

[dependencies]
async-trait = "0.1"
aws-config = { version = "1", features = ["behavior-version-latest"] }
aws-sdk-ecs = { version = "1", features = ["behavior-version-latest"] }
axum = "*"
axum-tracing-opentelemetry = "*"
chrono = { version = "0.4", features = ["serde"] }
serde = { version = "1", features = ["derive"] }
serde_json = "1"
thiserror = "1"
tokio = { version = "1", features = ["macros", "rt-multi-thread", "net", "signal"] }
tower = "*"
tracing-subscriber = "*"
