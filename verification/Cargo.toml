[package]
name = "notor"
version = "0.1.0"
edition = "2021"
publish = false

[dependencies]
jsonwebtoken = "=9.3.1"
serde = { version = "=1.0.229", features = ["derive"] }
serde_json = "=1.0.151"
thiserror = "=2.0.21"
chrono = "=0.4.45"
warp = "=0.3.7"
tokio = { version = "=1.53.2", features = ["macros", "rt-multi-thread"] }
sqlx = { version = "=0.9.0", default-features = false, features = ["runtime-tokio", "postgres"] }
