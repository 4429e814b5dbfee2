[package]
name = "mainframe"
version = "0.1.0"
edition = "2021"
publish = false

[dependencies]
sysinfo = "*"
get_sys_info = "*"
nvml-wrapper = "*"
crossterm = "*"
ratatui = "*"
tokio = { version = "*", features = ["rt-multi-thread", "macros", "time", "sync"] }
futures = "*"
clap = { version = "*", features = ["derive"] }
better-panic = "*"
scopeguard = "*"
human_bytes = "*"
