[package]
name = "wallet_services"
version = "0.1.0"
edition = "2021"
publish = false

[dependencies]
serde = { version = "=1.0.229", features = ["derive"] }
serde_json = "=1.0.154"
base64 = "=0.13.1"
sodiumoxide = "=0.2.7"
chrono = { version = "=0.4.45", features = ["serde"] }
uuid = { version = "=0.8.2", features = ["v1"] }
log = "=0.4.35"
env_logger = "=0.9.3"
simple_logger = "=1.16.0"
tokio = { version = "=1.54.1", features = ["full"] }
futures = "=0.3.34"
futures-util = "=0.3.34"
actix = "=0.13.5"
actix-rt = "=2.15.0"
actix-web = "=4.18.1"
mysql_async = "=0.30.0"
mysql_common = { version = "=0.29.2", features = ["chrono"] }
tokio-postgres = { version = "=0.7.18", features = ["with-chrono-0_4", "with-serde_json-1"] }
deadpool-postgres = "=0.7.0"
reqwest = { version = "=0.11.27", features = ["json"] }
redis = { version = "=0.21.8", features = ["tokio-comp"] }
rdkafka = "=0.25.0"
