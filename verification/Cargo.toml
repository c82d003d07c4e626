[package]
name = "acquisim"
version = "0.1.0"
edition = "2021"
publish = false

[dependencies]
anyhow = "=1.0.104"
argon2 = "=0.5.3"
axum = "=0.7.9"
base64 = "=0.22.1"
config = { version = "=0.14.1", default-features = false, features = ["yaml"] }
deadpool-postgres = "=0.14.2"
fastwebsockets = { version = "=0.8.1", features = ["upgrade", "with_axum"] }
futures = "=0.3.34"
http = "=1.5.0"
rand = "=0.8.8"
refinery = { version = "*", features = ["tokio-postgres"] }
reqwest = { version = "=0.12.28", default-features = false, features = ["json"] }
rust_decimal = { version = "=1.43.0", features = ["db-tokio-postgres"] }
secrecy = { version = "=0.8.0", features = ["serde"] }
serde = { version = "=1.0.229", features = ["derive"] }
thiserror = "=1.0.69"
time = { version = "=0.3.55", features = ["serde", "formatting", "parsing"] }
tokio = { version = "=1.54.1", features = ["macros", "rt-multi-thread", "sync", "time", "signal", "net"] }
tokio-postgres = { version = "=0.7.18", features = ["with-time-0_3"] }
tower = "=0.4.13"
tower-http = { version = "=0.5.2", features = ["cors", "fs"] }
tracing = "=0.1.44"
tracing-appender = "=0.2.5"
tracing-subscriber = { version = "=0.3.23", features = ["env-filter"] }
url = { version = "=2.5.8", features = ["serde"] }
uuid = { version = "=1.29.0", features = ["v4", "serde"] }
