[package]
name = "rusty_slack_weather_status"
version = "0.99.0"
edition = "2021"
publish = false

[dependencies]
clap = "=2.34.0"
env_logger = "=0.11.11"
lazy_static = "=1.5.1"
log = "=0.4.34"
reqwest = { version = "=0.12.28", features = ["json"] }
rust-embed = { version = "=8.13.0", features = ["interpolate-folder-path"] }
scraper = "=0.29.0"
tokio = { version = "=1.54.1", features = ["macros", "rt-multi-thread"] }
toml = "=1.1.8"
