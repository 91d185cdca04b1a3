[package]
name = "connected"
version = "0.1.0"
edition = "2021"
publish = false

[dependencies]
jsonwebtoken = "=9.3.1"
bcrypt = "=0.15.1"
sha2 = "=0.10.9"
uuid = { version = "=1.29.1", features = ["serde", "v4"] }
serde = { version = "=1.0.229", features = ["derive"] }
serde_json = { version = "=1.0.154", features = ["raw_value"] }
axum = "=0.7.9"
axum-extra = { version = "=0.9.6", features = ["typed-header"] }
sqlx = { version = "=0.8.6", default-features = false, features = ["runtime-tokio", "postgres", "uuid", "chrono", "macros", "migrate"] }
tokio = { version = "=1.54.1", features = ["macros", "rt-multi-thread", "net"] }
tower-http = { version = "=0.5.2", features = ["trace"] }
tracing = "=0.1.44"
tracing-subscriber = { version = "=0.3.23", features = ["env-filter"] }
chrono = { version = "=0.4.45", features = ["serde"] }
dotenvy = "=0.15.7"
