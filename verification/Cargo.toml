[package]
name = "authgate"
version = "0.1.0"
edition = "2021"
publish = false

[dependencies]
axum = "=0.7.9"
base64 = "=0.22.1"
chrono = { version = "=0.4.45", features = ["serde"] }
deadpool = "=0.12.3"
deadpool-postgres = "=0.14.2"
deadpool-redis = "=0.23.1"
http-body-util = "=0.1.5"
jsonwebtoken = "=9.3.1"
once_cell = "=1.21.4"
prost = "=0.13.5"
prost-types = "=0.13.5"
rdkafka = "=0.39.0"
rsa = { version = "=0.9.10", features = ["sha2"] }
rust_decimal = { version = "=1.43.0", features = ["db-tokio-postgres"] }
serde = { version = "=1.0.229", features = ["derive"] }
tokio = { version = "=1.54.1", features = ["rt", "rt-multi-thread", "macros", "sync", "time"] }
tokio-postgres = { version = "=0.7.18", features = ["with-chrono-0_4"] }
tonic = "=0.12.3"
tracing = "=0.1.44"
uuid = { version = "=1.29.0", features = ["v7"] }
