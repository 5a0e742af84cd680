[package]
name = "gpu_observer"
version = "0.1.0"
edition = "2021"
publish = false

[dependencies]
anyhow = "1"
crossterm = "0.28"
nvml-wrapper = "0.10"
parking_lot = "0.12"
ratatui = "0.29"
sysinfo = "0.32"
tokio = { version = "1", features = ["full"] }
tui-big-text = "0.7"
