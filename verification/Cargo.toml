[package]
name = "adc_oracle"
version = "0.1.0"
edition = "2021"
publish = false

[dependencies]
anyhow = "1"
candid = "0.10"
chrono = "0.4"
clap = { version = "4", features = ["derive", "env"] }
dotenv = "0.15"
hex = "0.4"
ic-agent = "0.37"
ic-cdk = "0.16"
ic-cdk-macros = "0.16"
ic-utils = "0.37"
rand = "0.8"
reqwest = { version = "0.12", features = ["json"] }
serde = { version = "1", features = ["derive"] }
serde_json = "1"
thiserror = "1"
time = "0.3"
tokio = { version = "1", features = ["full"] }
tokio-cron-scheduler = "0.10"
tracing = "0.1"
tracing-subscriber = "0.3"
uuid = "1"
verity-client = "*"
verity-ic = "*"
