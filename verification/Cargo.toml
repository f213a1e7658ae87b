[package]
name = "meshtui"
version = "0.1.0"
edition = "2021"
publish = false

[dependencies]
anyhow = "=1.0.104"
arboard = { version = "=3.7.0", default-features = false }
bluest = "=0.6.9"
chrono = "=0.4.45"
confy = "=2.0.0"
crossterm = { version = "=0.29.0", features = ["event-stream"] }
futures = "=0.3.34"
hostaddr = "=1.0.0"
itertools = "=0.15.0"
lazy_static = "=1.5.1"
maplit = "=1.0.2"
meshtastic = { version = "=0.1.9", default-features = false, features = ["serde", "strum"] }
nameof = "=1.3.0"
ratatui = "=0.30.2"
regex = "=1.13.1"
serde = { version = "=1.0.229", features = ["derive"] }
strum = { version = "=0.28.0", features = ["derive"] }
thiserror = "=2.0.21"
tokio = { version = "=1.54.1", features = ["full"] }
tokio-graceful-shutdown = "=0.20.0"
tracing = "=0.1.44"
tracing-unwrap = "=1.0.1"
tui-input = "=0.15.5"
tui-widget-list = "=0.15.3"
