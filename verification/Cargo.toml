[package]
name = "ruggine"
version = "0.1.0"
edition = "2021"
publish = false

[dependencies]
tokio = { version = "=1.54.1", features = ["full"] }
dashmap = "=6.2.1"
serde = { version = "=1.0.229", features = ["derive"] }
serde_json = "=1.0.154"
uuid = { version = "=1.29.0", features = ["v4", "serde"] }
bcrypt = "=0.15.1"
axum = { version = "=0.7.9", features = ["ws"] }
axum-extra = { version = "=0.9.6", features = ["typed-header"] }
sqlx = { version = "=0.8.6", default-features = false, features = ["sqlite", "runtime-tokio", "uuid", "time", "derive"] }
jsonwebtoken = "=9.3.1"
chrono = "=0.4.45"
time = { version = "=0.3.55", features = ["serde"] }
futures-util = "=0.3.34"
tracing = "=0.1.44"
tracing-subscriber = { version = "=0.3.23", features = ["env-filter"] }
tracing-appender = "=0.2.5"
dotenvy = "=0.15.7"
sysinfo = "=0.30.13"
cpu-time = "=1.0.0"
reqwest = { version = "=0.12.28", default-features = false, features = ["json"] }
tokio-tungstenite = "=0.24.0"
egui = "0.29"
