[package]
name = "coupon_api"
version = "0.1.0"
edition = "2021"
publish = false

[dependencies]
actix-web = "4"
actix-web-httpauth = "0.8"
anyhow = "1"
base64 = "0.13"
chrono = { version = "0.4", default-features = false, features = ["clock", "std", "serde"] }
config = { version = "0.13", default-features = false, features = ["yaml"] }
redis = { version = "0.22", features = ["tokio-comp"] }
secrecy = { version = "0.8", features = ["serde"] }
serde = { version = "1", features = ["derive"] }
serde-aux = "4"
sqlx = { version = "0.6", default-features = false, features = ["runtime-actix-rustls", "mysql", "chrono"] }
thiserror = "1"
tokio = { version = "1", features = ["macros", "rt-multi-thread"] }
tracing = "0.1"
tracing-actix-web = "0.7"
uuid = { version = "1", features = ["v4"] }
