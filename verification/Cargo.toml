[package]
name = "auth_service"
version = "0.1.0"
edition = "2021"
publish = false

[dependencies]
rand = "=0.8.8"
base64 = "=0.22.1"
sha2 = "=0.10.9"
bcrypt = "=0.19.3"
zxcvbn = "=3.1.1"
uuid = { version = "=1.29.0", features = ["v4"] }
moka = { version = "=0.12.16", features = ["sync", "future"] }
chrono = { version = "=0.4.45", features = ["serde"] }
actix-web = "=4.18.1"
awc = "=3.11.0"
tokio = { version = "=1.54.1", features = ["sync", "macros", "rt-multi-thread"] }
sqlx = { version = "=0.8.6", features = ["postgres", "runtime-tokio", "uuid", "chrono"] }
serde = { version = "=1.0.229", features = ["derive"] }
serde_json = "=1.0.154"
tracing = "=0.1.44"
futures = "=0.3.34"
futures-util = "=0.3.34"
async-trait = "=0.1.92"
thiserror = "=2.0.21"
validator = { version = "=0.21.0", features = ["derive"] }
actixutils = "*"
viewset = "*"
typed-eventbus = "*"
