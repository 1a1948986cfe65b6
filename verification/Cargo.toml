[package]
name = "projectx"
version = "0.1.0"
edition = "2021"
publish = false

[dependencies]
anyhow = "=1.0.104"
async-trait = "=0.1.92"
axum = "=0.8.9"
axum-extra = { version = "=0.10.3", features = ["cookie-private", "typed-header"] }
bcrypt = "=0.15.1"
chrono = "=0.4.45"
cookie = { version = "=0.18.2", features = ["private", "key-expansion"] }
deadpool-redis = "=0.18.0"
dotenv = "=0.15.0"
jsonwebtoken = "=9.3.1"
lazy_static = "=1.5.1"
prometheus = "=0.13.4"
redis = { version = "=0.27.6", features = ["tokio-comp", "aio"] }
serde = { version = "=1.0.229", features = ["derive"] }
serde_json = { version = "=1.0.154", features = ["preserve_order"] }
sqlx = { version = "=0.8.6", default-features = false, features = ["runtime-tokio", "postgres", "uuid", "chrono", "json", "macros"] }
sysinfo = "=0.32.1"
thiserror = "2"
tokio = { version = "=1.54.1", features = ["full"] }
tower = "=0.5.3"
tower-http = { version = "=0.6.11", features = ["trace", "cors", "compression-br", "compression-gzip"] }
tower-sessions = "=0.13.0"
tracing = "=0.1.44"
tracing-subscriber = "=0.3.23"
utoipa = { version = "=5.5.0", features = ["uuid", "chrono"] }
utoipa-scalar = { version = "0.3", features = ["axum"] }
uuid = { version = "=1.29.0", features = ["v4", "serde"] }
validator = { version = "=0.18.1", features = ["derive"] }
webauthn-rs = { version = "=0.5.5", features = ["danger-allow-state-serialisation"] }
