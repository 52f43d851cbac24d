[package]
name = "flowers"
version = "0.1.0"
edition = "2021"
publish = false

[dependencies]
axum = "=0.8.9"
chrono = { version = "=0.4.45", features = ["serde"] }
defmt = "1"
embassy-futures = "0.1"
embassy-sync = "0.7"
embassy-time = "0.5"
embedded-hal = "1"
embedded-hal-async = "1"
embedded-io-async = "0.6"
heapless = { version = "=0.8.0", features = ["serde"] }
minimq = "0.10"
rumqttc = { version = "=0.24.0", default-features = false }
serde = { version = "=1.0.229", features = ["derive"] }
serde-json-core = "=0.6.0"
sqlx = { version = "=0.8.6", default-features = false, features = ["sqlite", "runtime-tokio", "chrono", "migrate"] }
tokio = { version = "=1.54.1", features = ["full"] }
utoipa = { version = "=5.5.0", features = ["axum_extras", "chrono"] }
