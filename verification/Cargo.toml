[package]
name = "pza-power-supply"
version = "0.1.0"
edition = "2021"
publish = false

[dependencies]
anyhow = "=1.0.104"
async-trait = "=0.1.92"
bytes = "=1.12.1"
clap = { version = "=4.6.7", features = ["derive"] }
crossterm = "=0.29.0"
json5 = "*"
ka3005p = "=0.7.0"
once_cell = "=1.21.4"
ratatui = "=0.30.2"
rumqttc = "=0.25.1"
rumqttd = { version = "*", default-features = false }
serde = { version = "=1.0.229", features = ["derive"] }
serde_json = "=1.0.154"
thiserror = "=2.0.21"
tokio = { version = "=1.54.1", features = ["full"] }
tracing = "=0.1.44"
tracing-subscriber = "=0.3.23"
