[package]
name = "velox"
version = "0.1.0"
edition = "2021"
publish = false

[dependencies]
sha2 = "0.10"
hex = "0.4"
rand = "0.9"
uuid = { version = "1", features = ["v4", "serde"] }
validator = "0.20"
chrono = { version = "0.4", features = ["serde"] }
axum = { version = "0.8", default-features = false, features = ["json", "query", "multipart", "tokio", "http1"] }
axum-extra = { version = "0.10", default-features = false, features = ["cookie"] }
cookie = "0.18"
sqlx = { version = "0.8", default-features = false, features = ["postgres", "runtime-tokio", "uuid", "chrono", "derive", "macros"] }
aws-sdk-s3 = { version = "1", default-features = false, features = ["rt-tokio", "behavior-version-latest"] }
aws-config = { version = "1", default-features = false, features = ["rt-tokio", "behavior-version-latest"] }
resend-rs = "*"
jsonwebtoken = "9"
tokio = { version = "1", features = ["macros", "rt-multi-thread", "net"] }
serde = { version = "1", features = ["derive"] }
serde_json = "1"
dotenvy = "0.15"
futures-util = "0.3"
bytes = "1"
tracing = "0.1"
thiserror = "2"
async-trait = "0.1"
