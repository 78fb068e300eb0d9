[package]
name = "storefront"
version = "0.1.0"
edition = "2021"
publish = false

[dependencies]
aws-config = "=1.12.0"
aws-sdk-s3 = "=1.152.0"
axum = { version = "=0.8.9", features = ["multipart"] }
axum-cookie = "=0.3.0"
axum-macros = "=0.5.1"
bcrypt = "=0.19.3"
bson = "=2.15.0"
chrono = { version = "=0.4.45", features = ["serde"] }
dotenvy = "=0.15.7"
jsonwebtoken = "=9.3.1"
lettre = { version = "=0.11.23", default-features = false, features = ["builder", "hostname", "smtp-transport", "tokio1-rustls-tls"] }
maud = "=0.27.0"
mongodb = "=3.9.1"
rand = "=0.8.8"
serde = { version = "=1.0.229", features = ["derive"] }
serde_json = "=1.0.154"
tokio = { version = "=1.54.1", features = ["full"] }
tower-http = { version = "=0.6.11", features = ["limit"] }
tracing = "=0.1.44"
uuid = { version = "=1.29.0", features = ["v4"] }
