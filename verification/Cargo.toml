[package]
name = "hyper_sync"
version = "0.1.0"
edition = "2021"
publish = false

[dependencies]
anyhow = "1"
serde = { version = "1", features = ["derive"] }
serde_json = "1"
toml = "0.8"
clap = { version = "4", features = ["derive"] }
serialport = { version = "4", default-features = false }
ctrlc = "3"
notify = "6"
ratatui = "0.29"
crossterm = "0.28"
tokio = { version = "1", features = ["rt-multi-thread"] }
ashpd = { version = "0.9", default-features = false, features = ["tokio"] }
pipewire = "0.8"
ksni = { version = "0.3", features = ["blocking"] }
image = { version = "0.25", default-features = false, features = ["png"] }
