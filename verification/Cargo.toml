[package]
name = "tyme"
version = "0.1.0"
edition = "2021"
publish = false

[dependencies]
anyhow = "1"
askama = "0.12"
axum = { version = "0.6", features = ["ws", "headers"] }
chrono = { version = "0.4", features = ["serde"] }
cron = "0.12"
dirs = "5"
flexi_logger = "0.27"
futures = "0.3"
headers = "0.3"
lazy_static = "1"
linked-hash-map = "0.5"
log = "0.4"
markdown = "1"
mime = "0.3"
mlua = { version = "0.9", features = ["lua54", "vendored", "async", "serialize"] }
nanoid = "0.4"
paho-mqtt = "0.12"
parking_lot = "0.12"
serde = { version = "1", features = ["derive"] }
serde_json = "1"
sqlx = { version = "0.7", default-features = false, features = ["mysql", "runtime-tokio", "chrono", "migrate"] }
structopt = "0.3"
tokio = { version = "1", features = ["full"] }
tokio-util = { version = "0.7", features = ["io"] }
toml_edit = { version = "0.19", features = ["serde"] }
tower = "0.4"
tower-http = { version = "0.4", features = ["fs", "trace"] }
tower-sessions = "0.2"
