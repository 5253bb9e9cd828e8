[package]
name = "termcom"
version = "0.1.0"
edition = "2021"
publish = false

[dependencies]
uuid = { version = "1", features = ["v4"] }
hex = "0.4"
base64 = "0.22"
tokio = { version = "1", features = ["full"] }
clap = { version = "4", features = ["derive"] }
serde = { version = "1", features = ["derive"] }
serde_json = "1"
toml = "*"
thiserror = "1"
tracing = "0.1"
tracing-subscriber = { version = "0.3", features = ["env-filter"] }
serialport = { version = "4", default-features = false }
tabled = "*"
dirs = "*"
crossterm = "*"
ratatui = "*"
async-trait = "0.1"
