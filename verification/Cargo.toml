[package]
name = "svc_assets"
version = "0.1.0"
edition = "2021"
publish = false

[dependencies]
axum = "=0.6.20"
hyper = "=0.14.32"
tokio = { version = "=1.53.2", features = ["macros", "rt-multi-thread", "signal", "sync", "time"] }
tower = { version = "=0.4.13", features = ["buffer", "limit", "util"] }
tower-http = { version = "=0.4.4", features = ["cors", "trace"] }
tonic = "=0.8.3"
tonic-health = "=0.8.0"
clap = { version = "=4.6.7", features = ["derive"] }
utoipa = "=3.5.0"
serde = { version = "=1.0.229", features = ["derive"] }
log = "=0.4.34"
chrono = { version = "=0.4.45", features = ["serde"] }
prost-types = "=0.11.9"
futures = "=0.3.34"
uuid = { version = "=1.27.0", features = ["v4"] }
svc-storage-client-grpc = "=0.2.0"
