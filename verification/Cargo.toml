[package]
name = "lcd_agent"
version = "0.1.0"
edition = "2021"
publish = false

[dependencies]
dirs = "=5.0.1"
dotenv = "=0.15.0"
futures = "=0.3.34"
futures-util = "=0.3.34"
log = "=0.4.34"
log4rs = "=1.4.0"
serde = { version = "=1.0.229", features = ["derive"] }
serde_json = "=1.0.154"
thiserror = "=1.0.69"
tokio = { version = "=1.54.1", features = ["full"] }
tokio-cron-scheduler = "=0.10.2"
tokio-tungstenite = { version = "=0.21.0", features = ["native-tls"] }
