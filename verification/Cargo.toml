[package]
name = "web_service"
version = "0.1.0"
edition = "2021"
publish = false

[dependencies]
async-std = { version = "1", features = ["attributes"] }
chrono = "=0.4.45"
diesel = { version = "1.4", features = ["postgres", "chrono"] }
env_logger = "0.9"
futures = "0.3"
r2d2 = "0.8"
r2d2-diesel = "1.0"
rand = "=0.7.3"
serde = { version = "1", features = ["derive"] }
serde_json = "1"
tide = "0.16"
tide-rustls = "0.3"
tokio = { version = "1", features = ["rt", "time"] }
