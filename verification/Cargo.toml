[package]
name = "setlyst"
version = "0.1.0"
edition = "2021"
publish = false

[dependencies]
async-trait = "=0.1.92"
axum = "=0.8.9"
base64 = "=0.22.1"
chrono = { version = "=0.4.45", features = ["serde"] }
futures-util = "=0.3.34"
genpdf = "=0.2.0"
ipnet = "=2.12.2"
jsonwebtoken = "=9.3.1"
lettre = { version = "=0.11.23", default-features = false, features = ["builder", "smtp-transport", "tokio1-rustls-tls", "hostname", "pool"] }
reqwest = { version = "=0.12.28", default-features = false }
serde = { version = "=1.0.229", features = ["derive"] }
serde_json = "=1.0.154"
sqlx = { version = "=0.8.6", default-features = false, features = ["runtime-tokio", "postgres", "chrono", "uuid", "json", "derive"] }
thiserror = "=2.0.21"
tokio = { version = "=1.54.1", features = ["full"] }
tower_governor = { version = "=0.7.0", features = ["tracing"] }
tracing = "=0.1.44"
unicode-normalization = "=0.1.26"
uuid = { version = "=1.29.0", features = ["v4", "v7", "serde"] }
validator = { version = "=0.20.0", features = ["derive"] }
