[package]
name = "market_view"
version = "0.1.0"
edition = "2021"
publish = false

[dependencies]
anyhow = "1"
chrono = "0.4"
egui = { version = "0.27", default-features = false }
egui_plot = { version = "0.27", default-features = false }
log = "0.4"
simple_logger = "4"
tokio = { version = "1", features = ["rt-multi-thread", "sync"] }
yahoo_finance_api = "2"

[dev-dependencies]
serde_json = "1"
